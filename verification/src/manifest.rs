use vstd::prelude::*;

verus! {

/// The suffix that marks a temporary file.
pub open spec fn tmp_suffix() -> Seq<char> {
    seq!['.', 't', 'm', 'p']
}

/// The ending of a temporary manifest file name.
pub open spec fn mpd_tmp_suffix() -> Seq<char> {
    seq!['m', 'p', 'd', '.', 't', 'm', 'p']
}

pub open spec fn ends_with(s: Seq<char>, suffix: Seq<char>) -> bool {
    suffix.len() <= s.len() && s.subrange(s.len() - suffix.len(), s.len() as int) == suffix
}

/// `s` with every trailing repetition of `suffix` removed.
pub open spec fn trim_end_all(s: Seq<char>, suffix: Seq<char>) -> Seq<char>
    decreases s.len(),
{
    if suffix.len() > 0 && ends_with(s, suffix) {
        trim_end_all(s.subrange(0, s.len() - suffix.len()), suffix)
    } else {
        s
    }
}

/// The name a finished manifest gets: a name ending in `mpd.tmp` loses its
/// trailing `.tmp` suffixes; any other name is left alone (`None`).
pub open spec fn final_manifest_name(name: Seq<char>) -> Option<Seq<char>> {
    if ends_with(name, mpd_tmp_suffix()) {
        Some(trim_end_all(name, tmp_suffix()))
    } else {
        None
    }
}

/// Whether `name[0..end]` ends with `suffix`.
fn prefix_ends_with(name: &str, end: usize, suffix: &[char]) -> (res: bool)
    requires
        end <= name@.len(),
    ensures
        res == ends_with(name@.subrange(0, end as int), suffix@),
{
    let ghost prefix = name@.subrange(0, end as int);
    let k = suffix.len();
    if k > end {
        return false;
    }
    let start = end - k;
    let mut j: usize = 0;
    while j < k
        invariant
            k == suffix@.len(),
            start + k == end,
            end <= name@.len(),
            prefix == name@.subrange(0, end as int),
            j <= k,
            forall|m: int| 0 <= m < j ==> name@[start + m] == suffix@[m],
        decreases k - j,
    {
        if name.get_char(start + j) != suffix[j] {
            assert(prefix.subrange(start as int, end as int)[j as int] != suffix@[j as int]);
            return false;
        }
        j = j + 1;
    }
    assert(prefix.subrange(start as int, end as int) =~= suffix@);
    true
}

/// The final name of a temporary manifest file: for a name ending in
/// `mpd.tmp`, the name with its trailing `.tmp` suffixes removed; `None` for
/// any other name, which is left alone.
pub fn mpd_final_name(name: &str) -> (res: Option<String>)
    ensures
        match res {
            Some(s) => final_manifest_name(name@) == Some(s@),
            None => final_manifest_name(name@) is None,
        },
        res is Some <==> (name@.len() >= 7 && name@.subrange(name@.len() - 7, name@.len() as int)
            == seq!['m', 'p', 'd', '.', 't', 'm', 'p']),
        res matches Some(s) ==> s@ == name@.subrange(0, name@.len() - 4) && s@ + seq![
            '.',
            't',
            'm',
            'p',
        ] == name@,
{
    let mpd_tmp = ['m', 'p', 'd', '.', 't', 'm', 'p'];
    let tmp = ['.', 't', 'm', 'p'];
    proof {
        assert(mpd_tmp@ =~= mpd_tmp_suffix());
        assert(tmp@ =~= tmp_suffix());
    }
    let n = name.unicode_len();
    assert(name@.subrange(0, n as int) =~= name@);
    if !prefix_ends_with(name, n, mpd_tmp.as_slice()) {
        return None;
    }
    let mut end = n;
    while prefix_ends_with(name, end, tmp.as_slice())
        invariant
            end <= n,
            n == name@.len(),
            tmp@ == tmp_suffix(),
            trim_end_all(name@, tmp_suffix()) == trim_end_all(
                name@.subrange(0, end as int),
                tmp_suffix(),
            ),
        decreases end,
    {
        assert(name@.subrange(0, end as int).subrange(0, end - 4) =~= name@.subrange(
            0,
            end - 4,
        ));
        end = end - 4;
    }
    proof {
        lemma_final_name_drops_one_tmp(name@);
    }
    let trimmed = name.substring_char(0, end);
    Some(String::from_str(trimmed))
}

/// Only temporary manifests are renamed: a name that does not end in
/// `mpd.tmp` has no final name and is left alone.
pub proof fn lemma_other_names_left_alone(name: Seq<char>)
    requires
        !(name.len() >= 7 && name.subrange(name.len() - 7, name.len() as int) == seq![
            'm',
            'p',
            'd',
            '.',
            't',
            'm',
            'p',
        ]),
    ensures
        final_manifest_name(name) is None,
{
    assert(mpd_tmp_suffix() =~= seq!['m', 'p', 'd', '.', 't', 'm', 'p']);
}

/// A name ending in `mpd.tmp` loses exactly one `.tmp`: its final name is the
/// name without its last four characters.
pub proof fn lemma_final_name_drops_one_tmp(name: Seq<char>)
    requires
        ends_with(name, mpd_tmp_suffix()),
    ensures
        final_manifest_name(name) == Some(name.subrange(0, name.len() - 4)),
        name.subrange(0, name.len() - 4) + tmp_suffix() == name,
{
    let n = name.len();
    let once = name.subrange(0, n - 4);
    let tail = name.subrange(n - 7, n as int);
    assert(tail == mpd_tmp_suffix());
    assert(tail[2] == name[n - 5]);
    assert(tail[3] == name[n - 4]);
    assert(tail[4] == name[n - 3]);
    assert(tail[5] == name[n - 2]);
    assert(tail[6] == name[n - 1]);
    assert(name.subrange(n - 4, n as int) =~= tmp_suffix());
    assert(!ends_with(once, tmp_suffix())) by {
        if once.len() >= 4 {
            assert(once.subrange(once.len() - 4, once.len() as int)[3] == once[once.len() - 1]);
            assert(once[once.len() - 1] == name[n - 5]);
        }
    }
    assert(trim_end_all(once, tmp_suffix()) == once);
    assert(once + tmp_suffix() =~= name);
}

} // verus!
