use vstd::prelude::*;
use vstd::string::*;
use crate::artifact::{check_level_for_rarity, valid_level_for_rarity};
use crate::error::LookupError;
use crate::standardize::{flatten, flatten_str, str_eq};

verus! {

/// Whether `n` can be read in `h` left to right, skipping characters of `h`.
pub open spec fn is_subseq(n: Seq<char>, h: Seq<char>) -> bool
    decreases h.len(),
{
    if n.len() == 0 {
        true
    } else if h.len() == 0 {
        false
    } else if n[0] == h[0] {
        is_subseq(n.drop_first(), h.drop_first())
    } else {
        is_subseq(n, h.drop_first())
    }
}

/// Whether a query fuzzily names `haystack`: its normalised form is not
/// empty and can be read, in order, in the normalised `haystack`.
pub open spec fn fuzzy(needle: Seq<char>, haystack: Seq<char>) -> bool {
    flatten(needle).len() > 0 && is_subseq(flatten(needle), flatten(haystack))
}

/// Whether entry `j` of `s` answers query `q`: in the exact phase, the two
/// are equal once normalised; in the fuzzy phase, `q` fuzzily names it.
pub open spec fn hit<T: NamedJSON>(s: Seq<T>, q: Seq<char>, j: int, fuzzy_phase: bool) -> bool {
    if fuzzy_phase {
        fuzzy(q, s[j].name_view())
    } else {
        flatten(s[j].name_view()) == flatten(q)
    }
}

/// Entry `i` alone answers `q` in the phase.
pub open spec fn unique_hit<T: NamedJSON>(s: Seq<T>, q: Seq<char>, i: int, fuzzy_phase: bool) -> bool {
    &&& 0 <= i < s.len()
    &&& hit(s, q, i, fuzzy_phase)
    &&& forall|j: int| 0 <= j < s.len() && j != i ==> !#[trigger] hit(s, q, j, fuzzy_phase)
}

/// No entry answers `q` in the phase.
pub open spec fn no_hit<T: NamedJSON>(s: Seq<T>, q: Seq<char>, fuzzy_phase: bool) -> bool {
    forall|j: int| 0 <= j < s.len() ==> !#[trigger] hit(s, q, j, fuzzy_phase)
}

/// Two entries or more answer `q` in the phase.
pub open spec fn several_hits<T: NamedJSON>(s: Seq<T>, q: Seq<char>, fuzzy_phase: bool) -> bool {
    exists|i: int, j: int|
        0 <= i < j < s.len() && #[trigger] hit(s, q, i, fuzzy_phase) && #[trigger] hit(
            s,
            q,
            j,
            fuzzy_phase,
        )
}

enum Hits {
    Zero,
    One(usize),
    Many,
}

fn scan<T: NamedJSON>(list: &Vec<T>, name: &str, key: &String, fuzzy_phase: bool) -> (r: Hits)
    requires
        key@ == flatten(name@),
    ensures
        match r {
            Hits::Zero => no_hit(list@, name@, fuzzy_phase),
            Hits::One(i) => unique_hit(list@, name@, i as int, fuzzy_phase),
            Hits::Many => several_hits(list@, name@, fuzzy_phase),
        },
{
    let mut first: Option<usize> = None;
    let mut i: usize = 0;
    while i < list.len()
        invariant
            key@ == flatten(name@),
            i <= list@.len(),
            match first {
                Some(f) => f < i && hit(list@, name@, f as int, fuzzy_phase) && forall|j: int|
                    0 <= j < i && j != f ==> !#[trigger] hit(list@, name@, j, fuzzy_phase),
                None => forall|j: int| 0 <= j < i ==> !#[trigger] hit(list@, name@, j, fuzzy_phase),
            },
        decreases list@.len() - i,
    {
        let entry = list[i].name();
        let found = if fuzzy_phase {
            StatTableFactory::fuzzy_match(name, entry)
        } else {
            str_eq(flatten_str(entry).as_str(), key.as_str())
        };
        if found {
            match first {
                Some(f) => {
                    assert(hit(list@, name@, i as int, fuzzy_phase));
                    return Hits::Many;
                },
                None => {
                    first = Some(i);
                },
            }
        }
        i = i + 1;
    }
    match first {
        Some(f) => Hits::One(f),
        None => Hits::Zero,
    }
}

/// An entry of a data table that is looked up by name.
pub trait NamedJSON: Sized {
    spec fn name_view(&self) -> Seq<char>;

    fn name(&self) -> (r: &str)
        ensures
            r@ == self.name_view(),
    ;
}

/// Looks up base values by name and checks artifact levels.
pub struct StatTableFactory {}

/// Looks up base values by name and checks artifact levels.
pub struct StatFactory {}

impl StatTableFactory {
    /// Whether an artifact of `rarity` stars can be at `level`.
    pub fn check_correct_level_for_rarity(level: i8, rarity: i8) -> (r: bool)
        ensures
            r == valid_level_for_rarity(level as int, rarity as int),
    {
        check_level_for_rarity(level, rarity)
    }

    /// Whether the normalised `needled` can be read, in order, in the
    /// normalised `haystack` (an empty query matches nothing).
    pub fn fuzzy_match(needled: &str, haystack: &str) -> (r: bool)
        ensures
            r == fuzzy(needled@, haystack@),
    {
        let needle = flatten_str(needled);
        let hay = flatten_str(haystack);
        let n = needle.as_str().unicode_len();
        let h = hay.as_str().unicode_len();
        if n == 0 {
            return false;
        }
        let ghost ns = needle@;
        let ghost hs = hay@;
        let mut nidx: usize = 0;
        let mut i: usize = 0;
        assert(ns.subrange(0, n as int) == ns);
        assert(hs.subrange(0, h as int) == hs);
        while i < h
            invariant
                ns == needle@,
                hs == hay@,
                ns == flatten(needled@),
                hs == flatten(haystack@),
                n == ns.len(),
                h == hs.len(),
                n > 0,
                nidx < n,
                i <= h,
                is_subseq(ns, hs) == is_subseq(ns.subrange(nidx as int, n as int), hs.subrange(i as int, h as int)),
            decreases h - i,
        {
            let c = hay.as_str().get_char(i);
            let nc = needle.as_str().get_char(nidx);
            let ghost a = ns.subrange(nidx as int, n as int);
            let ghost b = hs.subrange(i as int, h as int);
            assert(b.drop_first() == hs.subrange(i + 1, h as int));
            assert(a.drop_first() == ns.subrange(nidx + 1, n as int));
            assert(a[0] == nc && b[0] == c);
            assert(is_subseq(a, b) == if a[0] == b[0] {
                is_subseq(a.drop_first(), b.drop_first())
            } else {
                is_subseq(a, b.drop_first())
            });
            if c == nc {
                nidx = nidx + 1;
                if nidx == n {
                    assert(ns.subrange(nidx as int, n as int).len() == 0);
                    assert(is_subseq(ns.subrange(nidx as int, n as int), hs.subrange(i + 1, h as int)));
                    return true;
                }
            }
            i = i + 1;
        }
        assert(hs.subrange(h as int, h as int).len() == 0);
        false
    }

    /// The entry that `name` names: the single one equal to it once
    /// normalised; where none is, the single one that it fuzzily names. An
    /// error where a phase finds more than one, or neither finds any.
    pub fn find_match<T: NamedJSON>(json_list: Vec<T>, name: &str) -> (r: Result<T, LookupError>)
        ensures
            match r {
                Ok(t) => exists|i: int|
                    0 <= i < json_list@.len() && t == json_list@[i] && (unique_hit(
                        json_list@,
                        name@,
                        i,
                        false,
                    ) || (no_hit(json_list@, name@, false) && unique_hit(
                        json_list@,
                        name@,
                        i,
                        true,
                    ))),
                Err(LookupError::NotFound) => no_hit(json_list@, name@, false) && no_hit(
                    json_list@,
                    name@,
                    true,
                ),
                Err(LookupError::Ambiguous) => several_hits(json_list@, name@, false) || (no_hit(
                    json_list@,
                    name@,
                    false,
                ) && several_hits(json_list@, name@, true)),
            },
    {
        let mut list = json_list;
        let key = flatten_str(name);
        match scan(&list, name, &key, false) {
            Hits::One(i) => {
                return Ok(list.remove(i));
            },
            Hits::Many => {
                return Err(LookupError::Ambiguous);
            },
            Hits::Zero => {},
        }
        match scan(&list, name, &key, true) {
            Hits::One(i) => Ok(list.remove(i)),
            Hits::Many => Err(LookupError::Ambiguous),
            Hits::Zero => Err(LookupError::NotFound),
        }
    }
}

impl StatFactory {
    /// Whether an artifact of `rarity` stars can be at `level`.
    pub fn check_correct_level_for_rarity(level: i8, rarity: i8) -> (r: bool)
        ensures
            r == valid_level_for_rarity(level as int, rarity as int),
    {
        StatTableFactory::check_correct_level_for_rarity(level, rarity)
    }

    /// Whether the normalised `needled` can be read, in order, in the
    /// normalised `haystack` (an empty query matches nothing).
    pub fn fuzzy_match(needled: &str, haystack: &str) -> (r: bool)
        ensures
            r == fuzzy(needled@, haystack@),
    {
        StatTableFactory::fuzzy_match(needled, haystack)
    }

    /// The entry that `name` names: the single exact match, else the single
    /// fuzzy match; an error where there is none or more than one.
    pub fn find_match<T: NamedJSON>(json_list: Vec<T>, name: &str) -> (r: Result<T, LookupError>)
        ensures
            match r {
                Ok(t) => exists|i: int|
                    0 <= i < json_list@.len() && t == json_list@[i] && (unique_hit(
                        json_list@,
                        name@,
                        i,
                        false,
                    ) || (no_hit(json_list@, name@, false) && unique_hit(
                        json_list@,
                        name@,
                        i,
                        true,
                    ))),
                Err(LookupError::NotFound) => no_hit(json_list@, name@, false) && no_hit(
                    json_list@,
                    name@,
                    true,
                ),
                Err(LookupError::Ambiguous) => several_hits(json_list@, name@, false) || (no_hit(
                    json_list@,
                    name@,
                    false,
                ) && several_hits(json_list@, name@, true)),
            },
    {
        StatTableFactory::find_match(json_list, name)
    }
}

} // verus!
