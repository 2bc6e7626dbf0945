//! The command-line flags that select the algorithm.

use vstd::prelude::*;

use crate::flags::{no_flags, Ns};
use crate::key::chars_of;
use crate::sort::strings_view;

verus! {

/// What the command-line flag `flag` does to the flags `ns`; `None` for a flag
/// that is not recognized.
pub open spec fn flag_effect(ns: Ns, flag: Seq<char>) -> Option<Ns> {
    if flag == "--real"@ {
        Some(Ns { float: true, signed: true, ..ns })
    } else if flag == "--float"@ {
        Some(Ns { float: true, ..ns })
    } else if flag == "--signed"@ {
        Some(Ns { signed: true, ..ns })
    } else if flag == "--ignorecase"@ {
        Some(Ns { ignorecase: true, ..ns })
    } else if flag == "--lowercasefirst"@ {
        Some(Ns { lowercasefirst: true, ..ns })
    } else if flag == "--groupletters"@ {
        Some(Ns { groupletters: true, ..ns })
    } else {
        None
    }
}

/// The flags that the arguments `args` select, starting from no flag, and the
/// arguments that are not recognized, in order.
pub open spec fn parsed_flags(args: Seq<Seq<char>>) -> (Ns, Seq<Seq<char>>)
    decreases args.len(),
{
    if args.len() == 0 {
        (no_flags(), Seq::empty())
    } else {
        let prev = parsed_flags(args.drop_last());
        match flag_effect(prev.0, args.last()) {
            Some(next) => (next, prev.1),
            None => (prev.0, prev.1.push(args.last())),
        }
    }
}

/// Whether the command-line flag `flag` is recognized.
pub open spec fn is_known_flag(flag: Seq<char>) -> bool {
    flag_effect(no_flags(), flag) is Some
}

/// A flag only turns flags on: every flag that was set stays set.
pub proof fn lemma_flag_keeps_set_flags(ns: Ns, flag: Seq<char>)
    ensures
        flag_effect(ns, flag) matches Some(m) ==> {
            &&& ns.float ==> m.float
            &&& ns.signed ==> m.signed
            &&& ns.ignorecase ==> m.ignorecase
            &&& ns.lowercasefirst ==> m.lowercasefirst
            &&& ns.groupletters ==> m.groupletters
        },
{
}

/// Each flag turns on what it names: `--real` the float and signed flags,
/// `--float` the float flag, `--signed` the signed flag, and each text flag
/// its own.
pub proof fn lemma_flag_turns_on(ns: Ns)
    ensures
        flag_effect(ns, "--real"@) matches Some(m) && m.float && m.signed,
        flag_effect(ns, "--float"@) matches Some(m) && m.float,
        flag_effect(ns, "--signed"@) matches Some(m) && m.signed,
        flag_effect(ns, "--ignorecase"@) matches Some(m) && m.ignorecase,
        flag_effect(ns, "--lowercasefirst"@) matches Some(m) && m.lowercasefirst,
        flag_effect(ns, "--groupletters"@) matches Some(m) && m.groupletters,
{
    reveal_strlit("--real");
    reveal_strlit("--float");
    reveal_strlit("--signed");
    reveal_strlit("--ignorecase");
    reveal_strlit("--lowercasefirst");
    reveal_strlit("--groupletters");
    assert("--float"@.len() != "--real"@.len());
    assert("--signed"@.len() != "--real"@.len() && "--signed"@.len() != "--float"@.len());
    assert("--ignorecase"@.len() != "--real"@.len() && "--ignorecase"@.len() != "--float"@.len()
        && "--ignorecase"@.len() != "--signed"@.len());
    assert("--lowercasefirst"@.len() != "--real"@.len() && "--lowercasefirst"@.len()
        != "--float"@.len() && "--lowercasefirst"@.len() != "--signed"@.len()
        && "--lowercasefirst"@.len() != "--ignorecase"@.len());
    assert("--groupletters"@.len() != "--real"@.len() && "--groupletters"@.len()
        != "--float"@.len() && "--groupletters"@.len() != "--signed"@.len()
        && "--groupletters"@.len() != "--ignorecase"@.len() && "--groupletters"@.len()
        != "--lowercasefirst"@.len());
}

/// Whether a flag is recognized does not depend on the flags already set.
pub proof fn lemma_flag_known_anywhere(ns: Ns, flag: Seq<char>)
    ensures
        (flag_effect(ns, flag) is Some) == is_known_flag(flag),
{
}

/// Recognized flags commute: applying two of them in either order gives the
/// same flags.
pub proof fn lemma_flags_commute(ns: Ns, f: Seq<char>, g: Seq<char>)
    requires
        is_known_flag(f),
        is_known_flag(g),
    ensures
        flag_effect(flag_effect(ns, f).unwrap(), g) == flag_effect(flag_effect(ns, g).unwrap(), f),
        flag_effect(flag_effect(ns, f).unwrap(), g) is Some,
{
}

/// The flags that the arguments select do not depend on the order of two
/// recognized flags given one after the other.
pub proof fn lemma_parsed_flags_swap(args: Seq<Seq<char>>, f: Seq<char>, g: Seq<char>)
    requires
        is_known_flag(f),
        is_known_flag(g),
    ensures
        parsed_flags(args.push(f).push(g)) == parsed_flags(args.push(g).push(f)),
{
    let prev = parsed_flags(args);
    assert(args.push(f).push(g).drop_last() == args.push(f));
    assert(args.push(f).drop_last() == args);
    assert(args.push(g).push(f).drop_last() == args.push(g));
    assert(args.push(g).drop_last() == args);
    lemma_flag_known_anywhere(prev.0, f);
    lemma_flag_known_anywhere(prev.0, g);
    lemma_flags_commute(prev.0, f, g);
    lemma_flags_commute(prev.0, g, f);
    let pf = parsed_flags(args.push(f));
    let pg = parsed_flags(args.push(g));
    assert(pf == (flag_effect(prev.0, f).unwrap(), prev.1));
    assert(pg == (flag_effect(prev.0, g).unwrap(), prev.1));
    lemma_flag_known_anywhere(pf.0, g);
    lemma_flag_known_anywhere(pg.0, f);
    assert(parsed_flags(args.push(f).push(g)) == (flag_effect(pf.0, g).unwrap(), prev.1));
    assert(parsed_flags(args.push(g).push(f)) == (flag_effect(pg.0, f).unwrap(), prev.1));
}

fn same_chars(a: &Vec<char>, b: &Vec<char>) -> (r: bool)
    ensures
        r == (a@ == b@),
{
    if a.len() != b.len() {
        return false;
    }
    let mut i: usize = 0;
    while i < a.len()
        invariant
            i <= a.len(),
            a.len() == b.len(),
            forall|k: int| 0 <= k < i ==> a@[k] == b@[k],
        decreases a.len() - i,
    {
        if a[i] != b[i] {
            return false;
        }
        i = i + 1;
    }
    assert(a@ =~= b@);
    true
}

fn is_flag(arg: &Vec<char>, name: &str) -> (r: bool)
    ensures
        r == (arg@ == name@),
{
    let n = chars_of(name);
    same_chars(arg, &n)
}

/// Applies the command-line flag `flag` to `ns`; `None` where the flag is not recognized.
pub fn apply_flag(ns: Ns, flag: &str) -> (r: Option<Ns>)
    ensures
        r == flag_effect(ns, flag@),
{
    let f = chars_of(flag);
    if is_flag(&f, "--real") {
        let mut m = ns;
        m.float = true;
        m.signed = true;
        Some(m)
    } else if is_flag(&f, "--float") {
        let mut m = ns;
        m.float = true;
        Some(m)
    } else if is_flag(&f, "--signed") {
        let mut m = ns;
        m.signed = true;
        Some(m)
    } else if is_flag(&f, "--ignorecase") {
        Some(ns.with_ignorecase())
    } else if is_flag(&f, "--lowercasefirst") {
        Some(ns.with_lowercasefirst())
    } else if is_flag(&f, "--groupletters") {
        Some(ns.with_groupletters())
    } else {
        None
    }
}

/// Reads the algorithm flags from command-line arguments, starting from no flag;
/// returns them with the arguments that are not recognized (which change nothing).
pub fn parse_flags(args: &[String]) -> (r: (Ns, Vec<String>))
    ensures
        (r.0, strings_view(r.1@)) == parsed_flags(strings_view(args@)),
{
    let mut ns = Ns::default_flags();
    let mut bad: Vec<String> = Vec::new();
    let mut i: usize = 0;
    while i < args.len()
        invariant
            i <= args.len(),
            (ns, strings_view(bad@)) == parsed_flags(strings_view(args@).take(i as int)),
        decreases args.len() - i,
    {
        let ghost prefix = strings_view(args@).take(i + 1);
        assert(prefix.drop_last() =~= strings_view(args@).take(i as int));
        assert(prefix.last() == args@[i as int]@);
        match apply_flag(ns, args[i].as_str()) {
            Some(next) => {
                ns = next;
            },
            None => {
                let ghost prev = bad@;
                bad.push(args[i].clone());
                assert(strings_view(bad@) =~= strings_view(prev).push(args@[i as int]@));
            },
        }
        i = i + 1;
    }
    assert(strings_view(args@).take(i as int) =~= strings_view(args@));
    (ns, bad)
}

} // verus!
