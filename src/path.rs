//! How an upload path is split into a destination directory and a file name.
//!
//! Only plain names count: empty pieces, `.` and `..` are dropped, so a path
//! is never resolved against its parent references.
use vstd::prelude::*;

verus! {

/// The pieces of `s` between `/` separators, empty pieces included; there is
/// always at least one.
pub open spec fn segments(s: Seq<char>) -> Seq<Seq<char>>
    decreases s.len(),
{
    if s.len() == 0 {
        seq![Seq::<char>::empty()]
    } else {
        let prev = segments(s.drop_last());
        if s.last() == '/' {
            prev.push(Seq::<char>::empty())
        } else {
            prev.update(prev.len() - 1, prev.last().push(s.last()))
        }
    }
}

/// A plain name: not empty, and neither `.` nor `..`.
pub open spec fn is_normal(seg: Seq<char>) -> bool {
    seg.len() > 0 && seg != seq!['.'] && seg != seq!['.', '.']
}

/// The plain names among `segs`, in order.
pub open spec fn keep_normal(segs: Seq<Seq<char>>) -> Seq<Seq<char>> {
    segs.filter(normal_pred())
}

pub open spec fn normal_pred() -> spec_fn(Seq<char>) -> bool {
    |c: Seq<char>| is_normal(c)
}

/// The plain names of path `s`, in order.
pub open spec fn normal_components(s: Seq<char>) -> Seq<Seq<char>> {
    keep_normal(segments(s))
}

/// `/` followed by `parts` joined with `/`.
pub open spec fn under_root(parts: Seq<Seq<char>>) -> Seq<char>
    decreases parts.len(),
{
    if parts.len() == 0 {
        seq!['/']
    } else if parts.len() == 1 {
        seq!['/'] + parts[0]
    } else {
        under_root(parts.drop_last()) + seq!['/'] + parts.last()
    }
}

/// The directory an upload of a path with plain names `parts` goes to: all
/// names but the last, under the root.
pub open spec fn upload_dir(parts: Seq<Seq<char>>) -> Seq<char> {
    if parts.len() == 0 {
        seq!['/']
    } else {
        under_root(parts.drop_last())
    }
}

/// The file name of an upload of a path with plain names `parts`: the last
/// name, or `file.bin` where there is none.
pub open spec fn upload_name(parts: Seq<Seq<char>>) -> Seq<char> {
    if parts.len() == 0 {
        "file.bin"@
    } else {
        parts.last()
    }
}

pub open spec fn string_views(v: Seq<String>) -> Seq<Seq<char>> {
    v.map_values(|x: String| x@)
}

proof fn lemma_segments_len(s: Seq<char>)
    ensures
        segments(s).len() >= 1,
    decreases s.len(),
{
    if s.len() > 0 {
        lemma_segments_len(s.drop_last());
    }
}

/// `seg` holds no separator.
pub open spec fn no_slash(seg: Seq<char>) -> bool {
    forall|j: int| 0 <= j < seg.len() ==> seg[j] != '/'
}

proof fn lemma_segments_no_slash(s: Seq<char>)
    ensures
        forall|i: int| 0 <= i < segments(s).len() ==> no_slash(#[trigger] segments(s)[i]),
    decreases s.len(),
{
    if s.len() > 0 {
        lemma_segments_no_slash(s.drop_last());
        lemma_segments_len(s.drop_last());
        let prev = segments(s.drop_last());
        if s.last() != '/' {
            let l = prev.last().push(s.last());
            assert(no_slash(prev[prev.len() - 1]));
            assert(no_slash(l));
        }
    }
}

proof fn lemma_keep_normal_no_slash(segs: Seq<Seq<char>>)
    requires
        forall|i: int| 0 <= i < segs.len() ==> no_slash(#[trigger] segs[i]),
    ensures
        forall|i: int| 0 <= i < keep_normal(segs).len() ==> no_slash(#[trigger] keep_normal(segs)[i]),
    decreases segs.len(),
{
    broadcast use Seq::lemma_filter_push, Seq::lemma_filter_len;

    if segs.len() > 0 {
        let init = segs.drop_last();
        lemma_keep_normal_no_slash(init);
        assert(segs =~= init.push(segs.last()));
        init.lemma_filter_push(segs.last(), normal_pred());
        assert(no_slash(segs[segs.len() - 1]));
        if is_normal(segs.last()) {
            let k = keep_normal(init);
            assert forall|i: int| 0 <= i < k.push(segs.last()).len() implies no_slash(
                #[trigger] k.push(segs.last())[i],
            ) by {
                if i < k.len() {
                    assert(no_slash(k[i]));
                }
            }
        }
    } else {
        segs.lemma_filter_len(normal_pred());
    }
}

/// An upload keeps only plain names of its path: every one of them is
/// non-empty, is neither `.` nor `..`, and holds no separator.
pub proof fn lemma_upload_names_plain(path: Seq<char>)
    ensures
        forall|i: int|
            0 <= i < normal_components(path).len() ==> is_normal(
                #[trigger] normal_components(path)[i],
            ) && no_slash(normal_components(path)[i]),
{
    broadcast use Seq::lemma_filter_pred;

    lemma_segments_no_slash(path);
    lemma_keep_normal_no_slash(segments(path));
    assert forall|i: int| 0 <= i < normal_components(path).len() implies is_normal(
        #[trigger] normal_components(path)[i],
    ) by {
        assert(normal_pred()(segments(path).filter(normal_pred())[i]));
    }
}

/// Whether `seg` is a plain name.
pub fn is_normal_segment(seg: &str) -> (r: bool)
    ensures
        r == is_normal(seg@),
{
    let len = seg.unicode_len();
    if len == 0 {
        false
    } else if len == 1 {
        let c = seg.get_char(0);
        if c == '.' {
            assert(seg@ =~= seq!['.']);
            false
        } else {
            assert(seq!['.'][0] == '.');
            true
        }
    } else if len == 2 {
        let c0 = seg.get_char(0);
        let c1 = seg.get_char(1);
        if c0 == '.' && c1 == '.' {
            assert(seg@ =~= seq!['.', '.']);
            false
        } else {
            assert(seq!['.', '.'][0] == '.' && seq!['.', '.'][1] == '.');
            true
        }
    } else {
        true
    }
}

/// The plain names of `path`, in order.
pub fn normal_components_of(path: &str) -> (r: Vec<String>)
    ensures
        string_views(r@) == normal_components(path@),
{
    broadcast use Seq::lemma_filter_push;

    let n = path.unicode_len();
    let mut parts: Vec<String> = Vec::new();
    let mut start: usize = 0;
    let mut i: usize = 0;
    proof {
        assert(path@.take(0) =~= Seq::<char>::empty());
        assert(string_views(parts@) =~= Seq::<Seq<char>>::empty());
        assert(segments(Seq::<char>::empty()).drop_last() =~= Seq::<Seq<char>>::empty());
        assert(keep_normal(Seq::<Seq<char>>::empty()) =~= Seq::<Seq<char>>::empty());
        assert(path@.subrange(0, 0) =~= Seq::<char>::empty());
    }
    while i < n
        invariant
            n == path@.len(),
            start <= i <= n,
            segments(path@.take(i as int)).len() >= 1,
            segments(path@.take(i as int)).last() == path@.subrange(start as int, i as int),
            string_views(parts@) == keep_normal(segments(path@.take(i as int)).drop_last()),
        decreases n - i,
    {
        let c = path.get_char(i);
        let ghost pre = path@.take(i as int);
        let ghost post = path@.take(i as int + 1);
        proof {
            assert(post.drop_last() =~= pre);
            assert(post.last() == c);
        }
        if c == '/' {
            let seg = path.substring_char(start, i);
            let normal = is_normal_segment(seg);
            let ghost old_parts = parts@;
            proof {
                assert(segments(post).drop_last() =~= segments(pre));
                assert(segments(pre) =~= segments(pre).drop_last().push(seg@));
                segments(pre).drop_last().lemma_filter_push(seg@, normal_pred());
            }
            if normal {
                parts.push(String::from_str(seg));
                proof {
                    assert(string_views(parts@) =~= string_views(old_parts).push(seg@));
                }
            }
            start = i + 1;
            proof {
                assert(path@.subrange(start as int, i as int + 1) =~= Seq::<char>::empty());
            }
        } else {
            proof {
                let prev = segments(pre);
                assert(segments(post).drop_last() =~= prev.drop_last());
                assert(path@.subrange(start as int, i as int + 1) =~= path@.subrange(
                    start as int,
                    i as int,
                ).push(c));
            }
        }
        i = i + 1;
    }
    let seg = path.substring_char(start, n);
    let normal = is_normal_segment(seg);
    let ghost old_parts = parts@;
    proof {
        assert(path@.take(n as int) =~= path@);
        assert(segments(path@) =~= segments(path@).drop_last().push(seg@));
        segments(path@).drop_last().lemma_filter_push(seg@, normal_pred());
    }
    if normal {
        parts.push(String::from_str(seg));
        proof {
            assert(string_views(parts@) =~= string_views(old_parts).push(seg@));
        }
    }
    parts
}

/// Splits `path` into the directory and the file name of an upload: the
/// directory is `/` followed by all plain names but the last, the file name is
/// the last plain name, or `file.bin` where there is none. Empty pieces, `.`
/// and `..` are dropped wherever they stand.
pub fn split_upload_path(path: &str) -> (r: (String, String))
    ensures
        r.0@ == upload_dir(normal_components(path@)),
        r.1@ == upload_name(normal_components(path@)),
{
    let mut parts = normal_components_of(path);
    let ghost all = string_views(parts@);
    let name = match parts.pop() {
        Some(last) => last,
        None => String::from_str("file.bin"),
    };
    proof {
        reveal_strlit("/");
        if all.len() > 0 {
            assert(string_views(parts@) =~= all.drop_last());
        }
    }
    let mut dir = String::from_str("/");
    let mut k: usize = 0;
    while k < parts.len()
        invariant
            k <= parts@.len(),
            all.len() > 0 ==> string_views(parts@) == all.drop_last(),
            all.len() == 0 ==> parts@.len() == 0,
            k == 0 ==> dir@ == seq!['/'],
            k > 0 ==> dir@ == under_root(string_views(parts@).take(k as int)),
        decreases parts@.len() - k,
    {
        let ghost views = string_views(parts@);
        if k > 0 {
            dir.append("/");
        }
        dir.append(parts[k].as_str());
        proof {
            reveal_strlit("/");
            let t = views.take(k as int + 1);
            assert(t.drop_last() =~= views.take(k as int));
            if k == 0 {
                assert(t.len() == 1);
                assert(t[0] == parts@[0]@);
            } else {
                assert(t.last() == parts@[k as int]@);
            }
        }
        k = k + 1;
    }
    proof {
        if all.len() > 1 {
            assert(string_views(parts@).take(parts@.len() as int) =~= all.drop_last());
        }
    }
    (dir, name)
}

} // verus!
