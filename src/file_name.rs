use vstd::prelude::*;

verus! {

/// The index of the last `.` of `f`, or -1 where there is none.
pub open spec fn last_dot(f: Seq<u8>) -> int
    decreases f.len(),
{
    if f.len() == 0 {
        -1
    } else if f.last() == 46u8 {
        f.len() - 1
    } else {
        last_dot(f.drop_last())
    }
}

/// A file name split at its last `.`: what comes before it and what comes
/// after. `..`, and a name whose only `.` leads it, are all "before"; a name
/// without `.` is all "after".
pub open spec fn split_at_last_dot(f: Seq<u8>) -> (Option<Seq<u8>>, Option<Seq<u8>>) {
    if f == seq![46u8, 46u8] {
        (Some(f), None)
    } else if last_dot(f) < 0 {
        (None, Some(f))
    } else if last_dot(f) == 0 {
        (Some(f), None)
    } else {
        (Some(f.take(last_dot(f))), Some(f.skip(last_dot(f) + 1)))
    }
}

/// The extension of the file name `f`: what follows its last `.`, where
/// something precedes that `.`.
pub open spec fn extension_of(f: Seq<u8>) -> Option<Seq<u8>> {
    match split_at_last_dot(f).0 {
        Some(_) => split_at_last_dot(f).1,
        None => None,
    }
}

/// The bytes of `v` from `lo` up to `hi`, copied.
fn copy_range(v: &Vec<u8>, lo: usize, hi: usize) -> (r: Vec<u8>)
    requires
        lo <= hi <= v.len(),
    ensures
        r@ == v@.subrange(lo as int, hi as int),
{
    let mut r: Vec<u8> = Vec::new();
    let mut i: usize = lo;
    while i < hi
        invariant
            lo <= i <= hi <= v.len(),
            r@ == v@.subrange(lo as int, i as int),
        decreases hi - i,
    {
        r.push(v[i]);
        assert(r@ =~= v@.subrange(lo as int, i + 1));
        i = i + 1;
    }
    r
}

/// Splits the file name `file` at its last `.`; see `split_at_last_dot`.
pub fn rsplit_file_at_dot(file: &Vec<u8>) -> (r: (Option<Vec<u8>>, Option<Vec<u8>>))
    ensures
        split_at_last_dot(file@) == (
            match r.0 {
                Some(b) => Some(b@),
                None => None,
            },
            match r.1 {
                Some(a) => Some(a@),
                None => None,
            },
        ),
{
    let n = file.len();
    if n == 2 && file[0] == 46u8 && file[1] == 46u8 {
        assert(file@ =~= seq![46u8, 46u8]);
        return (Some(file.clone()), None);
    }
    let mut i: usize = n;
    assert(file@.take(n as int) =~= file@);
    while i > 0 && file[i - 1] != 46u8
        invariant
            i <= n == file.len(),
            last_dot(file@) == last_dot(file@.take(i as int)),
        decreases i,
    {
        assert(file@.take(i as int).drop_last() =~= file@.take(i - 1));
        i = i - 1;
    }
    if i == 0 {
        assert(file@.take(0) =~= seq![]);
        return (None, Some(file.clone()));
    }
    assert(file@.take(i as int).last() == 46u8);
    if i == 1 {
        return (Some(file.clone()), None);
    }
    let before = copy_range(file, 0, i - 1);
    let after = copy_range(file, i, n);
    assert(before@ =~= file@.take(i - 1));
    assert(after@ =~= file@.skip(i as int));
    (Some(before), Some(after))
}

/// The extension of the file name `file`; see `extension_of`.
pub fn extension(file: &Vec<u8>) -> (r: Option<Vec<u8>>)
    ensures
        extension_of(file@) == match r {
            Some(e) => Some(e@),
            None => None,
        },
{
    let (before, after) = rsplit_file_at_dot(file);
    match before {
        Some(_) => after,
        None => None,
    }
}

} // verus!
