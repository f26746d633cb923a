use vstd::prelude::*;

use crate::text::{
    all_digits, chars_of, decimal, digit_char, digits_value, is_digit, is_white_space, parse_digits, trim,
    trim_chars, trim_end, trim_start,
};

verus! {

/// A project of the frequent view, with its number of successful jumps.
#[derive(Debug, Clone, PartialEq, Eq)]
pub struct RankedProject {
    pub path: String,
    pub jumps: u64,
}

/// A group of projects that share a parent directory, as the default view shows it.
#[derive(Debug, Clone, PartialEq, Eq)]
pub struct Sector {
    pub label: String,
    pub name: String,
    pub above: String,
    pub paths: Vec<String>,
}

/// A selector of the default view, as zero-based indices: the sector, then the project in it.
#[derive(Debug, Clone, Copy, PartialEq, Eq)]
pub struct Choice {
    pub sector_index: usize,
    pub project_index: usize,
}

pub open spec fn ranked_paths(projects: Seq<RankedProject>) -> Seq<Seq<char>> {
    projects.map_values(|p: RankedProject| p.path@)
}

/// What a target of the frequent view selects among the projects whose paths are `paths`, in
/// ranking order: the one-based position written in decimal digits, after surrounding white space
/// is removed; or the message that refuses the target.
pub open spec fn frequent_choice(paths: Seq<Seq<char>>, target: Seq<char>) -> Result<Seq<char>, Seq<char>> {
    let t = trim(target);
    if t.len() == 0 {
        Err("empty input cancels"@)
    } else if !all_digits(t) || digits_value(t) > usize::MAX {
        Err("expected a positive project position, for example 1"@)
    } else if digits_value(t) == 0 {
        Err("project position starts at 1"@)
    } else if digits_value(t) > paths.len() {
        Err("No such project"@)
    } else {
        Ok(paths[digits_value(t) - 1])
    }
}

/// The path of the project that a target of the frequent view selects, or why none is.
pub fn frequent_path_for_target<'a>(projects: &'a Vec<RankedProject>, target: &str) -> (r: Result<&'a str, &'static str>)
    ensures
        match r {
            Ok(path) => frequent_choice(ranked_paths(projects@), target@) == Ok::<Seq<char>, Seq<char>>(path@),
            Err(message) => frequent_choice(ranked_paths(projects@), target@) == Err::<Seq<char>, Seq<char>>(message@),
        },
{
    let t = trim_chars(&chars_of(target));
    if t.len() == 0 {
        return Err("empty input cancels");
    }
    let n = t.len();
    let mut i: usize = 0;
    while i < n
        invariant
            n == t@.len(),
            t@ == trim(target@),
            i <= n,
            forall|j: int| 0 <= j < i ==> #[trigger] is_digit(t@[j]),
        decreases n - i,
    {
        if !('0' <= t[i] && t[i] <= '9') {
            assert(!is_digit(t@[i as int]));
            return Err("expected a positive project position, for example 1");
        }
        i = i + 1;
    }
    let position = match parse_digits(&t) {
        Some(position) => position,
        None => {
            return Err("expected a positive project position, for example 1");
        },
    };
    if position == 0 {
        return Err("project position starts at 1");
    }
    if position > projects.len() {
        return Err("No such project");
    }
    Ok(projects[position - 1].path.as_str())
}

pub open spec fn sector_paths(sectors: Seq<Sector>) -> Seq<Seq<Seq<char>>> {
    sectors.map_values(|s: Sector| s.paths@.map_values(|p: String| p@))
}

/// What a selector of the default view selects in sectors whose project paths are `paths`.
pub open spec fn sector_choice(paths: Seq<Seq<Seq<char>>>, sector_index: nat, project_index: nat) -> Result<Seq<char>, Seq<char>> {
    if sector_index >= paths.len() {
        Err("No such sector"@)
    } else if project_index >= paths[sector_index as int].len() {
        Err("No such project"@)
    } else {
        Ok(paths[sector_index as int][project_index as int])
    }
}

/// The path of the project that a selector names, or why there is none.
pub fn path_for_choice<'a>(sectors: &'a Vec<Sector>, choice: Choice) -> (r: Result<&'a str, &'static str>)
    ensures
        match r {
            Ok(path) => sector_choice(sector_paths(sectors@), choice.sector_index as nat, choice.project_index as nat)
                == Ok::<Seq<char>, Seq<char>>(path@),
            Err(message) => sector_choice(sector_paths(sectors@), choice.sector_index as nat, choice.project_index as nat)
                == Err::<Seq<char>, Seq<char>>(message@),
        },
{
    if choice.sector_index >= sectors.len() {
        return Err("No such sector");
    }
    let sector = &sectors[choice.sector_index];
    if choice.project_index >= sector.paths.len() {
        return Err("No such project");
    }
    Ok(sectors[choice.sector_index].paths[choice.project_index].as_str())
}

proof fn lemma_decimal_digits(n: nat)
    ensures
        all_digits(decimal(n)),
        digits_value(decimal(n)) == n,
        decimal(n).len() > 0,
        !is_white_space(decimal(n)[0]),
        !is_white_space(decimal(n).last()),
    decreases n,
{
    let c = digit_char(n % 10);
    assert(c as nat == '0' as nat + n % 10);
    if n < 10 {
        assert(decimal(n).drop_last() =~= Seq::<char>::empty());
        assert(decimal(n).last() == c);
        assert(digits_value(decimal(n)) == digits_value(Seq::<char>::empty()) * 10 + ((c as nat) - ('0' as nat)) as nat);
    } else {
        lemma_decimal_digits(n / 10);
        let d = decimal(n);
        assert(n == (n / 10) * 10 + n % 10) by (nonlinear_arith);
        assert(d.last() == c);
        assert(d.drop_last() =~= decimal(n / 10));
        assert(digits_value(d) == digits_value(decimal(n / 10)) * 10 + ((c as nat) - ('0' as nat)) as nat);
        assert forall|i: int| 0 <= i < d.len() implies #[trigger] is_digit(d[i]) by {
            if i < d.len() - 1 {
                assert(d[i] == decimal(n / 10)[i]);
            }
        }
        assert(d[0] == decimal(n / 10)[0]);
    }
}

/// Positions are what the frequent view shows: the decimal number `k` selects the `k`-th
/// project, for every position of the list.
pub proof fn frequent_position_selects_project(paths: Seq<Seq<char>>, k: nat)
    requires
        1 <= k <= paths.len(),
        paths.len() <= usize::MAX,
    ensures
        frequent_choice(paths, decimal(k)) == Ok::<Seq<char>, Seq<char>>(paths[k - 1]),
{
    lemma_decimal_digits(k);
    let d = decimal(k);
    assert(trim_start(d) == d);
    assert(trim_end(d) == d);
}

} // verus!
