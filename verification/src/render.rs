use vstd::prelude::*;

use crate::paths::{project_name, project_name_spec, project_parent_display, project_parent_display_spec};
use crate::select::{sector_choice, sector_paths, RankedProject, Sector};
use crate::text::{chars_of, decimal, decimal_string, pad_left, pad_left_string, push_char};

verus! {

pub const RESET: &'static str = "\x1b[0m";
pub const BOLD: &'static str = "\x1b[1m";
pub const DIM: &'static str = "\x1b[2m";
pub const RED: &'static str = "\x1b[31m";
pub const CYAN: &'static str = "\x1b[36m";
pub const YELLOW: &'static str = "\x1b[33m";
pub const GREEN: &'static str = "\x1b[32m";
pub const BLUE: &'static str = "\x1b[94m";
pub const GRAY: &'static str = "\x1b[90m";

/// `value` in the color `code` where colors are on, else `value` itself.
pub open spec fn paint_spec(color: bool, code: Seq<char>, value: Seq<char>) -> Seq<char> {
    if color {
        code + value + RESET@
    } else {
        value
    }
}

/// Colors `value` with the escape code `code`, followed by a reset, where `color` is on.
pub fn paint(color: bool, code: &str, value: &str) -> (r: String)
    ensures
        r@ == paint_spec(color, code@, value@),
{
    if color {
        let mut r = code.to_owned();
        r.append(value);
        r.append(RESET);
        r
    } else {
        value.to_owned()
    }
}

/// Whether colors are on: `NO_COLOR` is unset and the terminal is not `dumb`.
pub fn colors_enabled_for(no_color_set: bool, term: Option<&str>) -> (r: bool)
    ensures
        r == (!no_color_set && match term {
            Some(t) => t@ != "dumb"@,
            None => true,
        }),
{
    !no_color_set && match term {
        Some(t) => !crate::text::str_is(t, "dumb"),
        None => true,
    }
}

/// The ASCII upper case of `c`; other characters stay as they are.
pub open spec fn ascii_upper(c: char) -> char {
    if 'a' <= c <= 'z' {
        ((c as nat) - 32) as char
    } else {
        c
    }
}

/// `value` with its first character in ASCII upper case.
pub open spec fn title_case_spec(value: Seq<char>) -> Seq<char> {
    if value.len() == 0 {
        value
    } else {
        value.update(0, ascii_upper(value[0]))
    }
}

/// Puts the first character of `value` in ASCII upper case.
pub fn title_case(value: &str) -> (r: String)
    ensures
        r@ == title_case_spec(value@),
{
    let chars = chars_of(value);
    if chars.len() == 0 {
        return value.to_owned();
    }
    let first = chars[0];
    let upper = if 'a' <= first && first <= 'z' {
        ((first as u32) - 32) as u8 as char
    } else {
        first
    };
    let mut r = String::new();
    push_char(&mut r, upper);
    let n = chars.len();
    let mut i: usize = 1;
    while i < n
        invariant
            n == chars@.len(),
            1 <= i <= n,
            r@ == seq![upper] + chars@.subrange(1, i as int),
        decreases n - i,
    {
        push_char(&mut r, chars[i]);
        i = i + 1;
        assert(r@ =~= seq![upper] + chars@.subrange(1, i as int));
    }
    assert(r@ =~= title_case_spec(value@));
    r
}

/// `project` or `projects`, as `count` asks.
pub open spec fn project_word_spec(count: nat) -> Seq<char> {
    if count == 1 { "project"@ } else { "projects"@ }
}

/// The noun for `count` projects.
pub fn project_word(count: usize) -> (r: &'static str)
    ensures
        r@ == project_word_spec(count as nat),
{
    if count == 1 { "project" } else { "projects" }
}

/// How the configured project tree differs from the folders found on disk.
#[derive(Debug, Clone, PartialEq, Eq)]
pub struct ProjectTreeDiff {
    pub unconfigured_projects: Vec<String>,
    pub stale_projects: Vec<String>,
}

/// The summary of a tree difference with `unconfigured` new and `stale` missing projects.
pub open spec fn diff_summary_spec(unconfigured: nat, stale: nat) -> Seq<char> {
    let new_part = decimal(unconfigured) + " new "@ + project_word_spec(unconfigured);
    let stale_part = decimal(stale) + " missing configured "@ + project_word_spec(stale);
    if unconfigured > 0 && stale > 0 {
        new_part + " and "@ + stale_part
    } else if unconfigured > 0 {
        new_part
    } else if stale > 0 {
        stale_part
    } else {
        Seq::empty()
    }
}

fn count_phrase(count: usize, middle: &str) -> (r: String)
    ensures
        r@ == decimal(count as nat) + middle@ + project_word_spec(count as nat),
{
    let mut r = decimal_string(count as u64);
    r.append(middle);
    r.append(project_word(count));
    r
}

/// The terminal summary of a project tree difference, such as
/// `2 new projects and 1 missing configured project`.
pub fn project_tree_diff_summary(diff: &ProjectTreeDiff) -> (r: String)
    ensures
        r@ == diff_summary_spec(diff.unconfigured_projects@.len(), diff.stale_projects@.len()),
{
    let unconfigured = diff.unconfigured_projects.len();
    let stale = diff.stale_projects.len();
    if unconfigured > 0 && stale > 0 {
        let mut r = count_phrase(unconfigured, " new ");
        r.append(" and ");
        r.append(count_phrase(stale, " missing configured ").as_str());
        r
    } else if unconfigured > 0 {
        count_phrase(unconfigured, " new ")
    } else if stale > 0 {
        count_phrase(stale, " missing configured ")
    } else {
        String::new()
    }
}

/// `a` followed by `b`.
pub fn cat(a: String, b: &str) -> (r: String)
    ensures
        r@ == a@ + b@,
{
    let mut r = a;
    r.append(b);
    r
}

/// The views of a list of lines.
pub open spec fn lines_view(lines: Seq<String>) -> Seq<Seq<char>> {
    lines.map_values(|line: String| line@)
}

/// The title line and the framed heading that open both project views.
pub open spec fn banner_spec(color: bool, app_name: Seq<char>, version: Seq<char>, rule: Seq<char>, heading: Seq<char>) -> Seq<Seq<char>> {
    seq![
        Seq::<char>::empty(),
        "  "@ + paint_spec(color, YELLOW@, "*"@) + " "@ + paint_spec(color, BOLD@, title_case_spec(app_name)) + " "@
            + paint_spec(color, DIM@, "(v"@ + version + ")"@),
        Seq::<char>::empty(),
        "  "@ + paint_spec(color, DIM@, rule) + " "@ + paint_spec(color, BLUE@, heading) + " "@ + paint_spec(color, DIM@, rule),
    ]
}

fn banner(color: bool, app_name: &str, version: &str, rule: &str, heading: &str) -> (r: Vec<String>)
    ensures
        lines_view(r@) == banner_spec(color, app_name@, version@, rule@, heading@),
{
    let mut r: Vec<String> = Vec::new();
    r.push(String::new());
    let title = cat(cat(cat(cat(cat("  ".to_owned(), paint(color, YELLOW, "*").as_str()), " "),
        paint(color, BOLD, title_case(app_name).as_str()).as_str()), " "),
        paint(color, DIM, cat(cat("(v".to_owned(), version), ")").as_str()).as_str());
    r.push(title);
    r.push(String::new());
    let framed = cat(cat(cat(cat(cat("  ".to_owned(), paint(color, DIM, rule).as_str()), " "),
        paint(color, BLUE, heading).as_str()), " "), paint(color, DIM, rule).as_str());
    r.push(framed);
    assert(lines_view(r@) =~= banner_spec(color, app_name@, version@, rule@, heading@));
    r
}

/// The line of the project at `index` (zero-based) in a sector: its one-based position,
/// right-aligned to two columns, and its name.
pub open spec fn sector_entry_spec(color: bool, index: nat, path: Seq<char>) -> Seq<char> {
    "     "@ + paint_spec(color, CYAN@, pad_left(decimal(index + 1), 2) + ")"@) + " "@
        + paint_spec(color, GREEN@, project_name_spec(path))
}

/// The lines of the projects `paths` of one sector.
pub open spec fn sector_entries_spec(color: bool, paths: Seq<Seq<char>>) -> Seq<Seq<char>>
    decreases paths.len(),
{
    if paths.len() == 0 {
        Seq::empty()
    } else {
        sector_entries_spec(color, paths.drop_last()).push(sector_entry_spec(color, (paths.len() - 1) as nat, paths.last()))
    }
}

/// The heading line of a sector: its label, its name and the directory above it.
pub open spec fn sector_heading_spec(color: bool, label: Seq<char>, name: Seq<char>, above: Seq<char>) -> Seq<char> {
    "  "@ + paint_spec(color, YELLOW@, label) + ".  "@ + paint_spec(color, BOLD@, name) + " "@
        + paint_spec(color, GRAY@, "("@ + above + ")"@)
}

/// The lines of one sector: a blank line, its heading, then its projects.
pub open spec fn sector_block_spec(color: bool, sector: Sector) -> Seq<Seq<char>> {
    seq![Seq::<char>::empty(), sector_heading_spec(color, sector.label@, sector.name@, sector.above@)]
        + sector_entries_spec(color, sector.paths@.map_values(|p: String| p@))
}

/// The lines of all sectors, in order.
pub open spec fn sectors_spec(color: bool, sectors: Seq<Sector>) -> Seq<Seq<char>>
    decreases sectors.len(),
{
    if sectors.len() == 0 {
        Seq::empty()
    } else {
        sectors_spec(color, sectors.drop_last()) + sector_block_spec(color, sectors.last())
    }
}

/// The default view: the banner, every sector, and a closing blank line.
pub open spec fn render_spec(color: bool, app_name: Seq<char>, version: Seq<char>, sectors: Seq<Sector>) -> Seq<Seq<char>> {
    banner_spec(color, app_name, version, "--------------"@, "Projects"@) + sectors_spec(color, sectors)
        + seq![Seq::<char>::empty()]
}

fn sector_block(color: bool, sector: &Sector) -> (r: Vec<String>)
    ensures
        lines_view(r@) == sector_block_spec(color, *sector),
{
    let mut r: Vec<String> = Vec::new();
    r.push(String::new());
    let heading = cat(cat(cat(cat(cat("  ".to_owned(), paint(color, YELLOW, sector.label.as_str()).as_str()), ".  "),
        paint(color, BOLD, sector.name.as_str()).as_str()), " "),
        paint(color, GRAY, cat(cat("(".to_owned(), sector.above.as_str()), ")").as_str()).as_str());
    r.push(heading);
    let ghost paths = sector.paths@.map_values(|p: String| p@);
    let ghost head = seq![Seq::<char>::empty(), sector_heading_spec(color, sector.label@, sector.name@, sector.above@)];
    assert(lines_view(r@) =~= head);
    assert(paths.take(0) =~= Seq::<Seq<char>>::empty());
    let n = sector.paths.len();
    let mut i: usize = 0;
    while i < n
        invariant
            n == sector.paths@.len(),
            paths == sector.paths@.map_values(|p: String| p@),
            i <= n,
            lines_view(r@) == head + sector_entries_spec(color, paths.take(i as int)),
        decreases n - i,
    {
        let number = pad_left_string(decimal_string((i + 1) as u64).as_str(), 2);
        let line = cat(cat(cat("     ".to_owned(), paint(color, CYAN, cat(number, ")").as_str()).as_str()), " "),
            paint(color, GREEN, project_name(sector.paths[i].as_str()).as_str()).as_str());
        let ghost before = r@;
        r.push(line);
        proof {
            assert(paths.take(i + 1).drop_last() =~= paths.take(i as int));
            assert(paths.take(i + 1).last() == sector.paths@[i as int]@);
            assert(lines_view(r@) =~= lines_view(before).push(line@));
            assert(lines_view(r@) =~= head + sector_entries_spec(color, paths.take(i + 1)));
        }
        i = i + 1;
    }
    assert(paths.take(n as int) =~= paths);
    r
}

fn push_all(lines: &mut Vec<String>, more: Vec<String>)
    ensures
        lines_view(final(lines)@) == lines_view(old(lines)@) + lines_view(more@),
{
    let ghost start = lines_view(lines@);
    let n = more.len();
    let mut rest = more;
    let mut i: usize = 0;
    let ghost all = lines_view(rest@);
    assert(all.take(0) =~= Seq::<Seq<char>>::empty());
    while i < n
        invariant
            n == rest@.len(),
            all == lines_view(rest@),
            i <= n,
            lines_view(lines@) == start + all.take(i as int),
        decreases n - i,
    {
        let line = rest[i].clone();
        let ghost before = lines_view(lines@);
        lines.push(line);
        assert(lines_view(lines@) =~= before.push(line@));
        assert(all.take(i + 1) =~= all.take(i as int).push(all[i as int]));
        i = i + 1;
    }
    assert(all.take(n as int) =~= all);
}

/// The lines of the default view of `sectors`, which the caller writes to the terminal.
pub fn render(sectors: &Vec<Sector>, color: bool, app_name: &str, version: &str) -> (r: Vec<String>)
    ensures
        lines_view(r@) == render_spec(color, app_name@, version@, sectors@),
{
    let mut r = banner(color, app_name, version, "--------------", "Projects");
    let ghost head = lines_view(r@);
    assert(sectors@.take(0) =~= Seq::<Sector>::empty());
    let n = sectors.len();
    let mut i: usize = 0;
    while i < n
        invariant
            n == sectors@.len(),
            i <= n,
            lines_view(r@) == head + sectors_spec(color, sectors@.take(i as int)),
        decreases n - i,
    {
        let block = sector_block(color, &sectors[i]);
        push_all(&mut r, block);
        proof {
            assert(sectors@.take(i + 1).drop_last() =~= sectors@.take(i as int));
            assert(sectors@.take(i + 1).last() == sectors@[i as int]);
            assert(head + sectors_spec(color, sectors@.take(i + 1)) =~= head + sectors_spec(color, sectors@.take(i as int))
                + sector_block_spec(color, sectors@[i as int]));
        }
        i = i + 1;
    }
    assert(sectors@.take(n as int) =~= sectors@);
    let ghost before = lines_view(r@);
    r.push(String::new());
    assert(lines_view(r@) =~= before.push(Seq::<char>::empty()));
    assert(lines_view(r@) =~= render_spec(color, app_name@, version@, sectors@));
    r
}

/// The widest decimal count among `jumps` (0 for none).
pub open spec fn widest_count(jumps: Seq<u64>) -> nat
    decreases jumps.len(),
{
    if jumps.len() == 0 {
        0
    } else {
        let rest = widest_count(jumps.drop_last());
        let last = decimal(jumps.last() as nat).len();
        if rest >= last { rest } else { last }
    }
}

pub open spec fn ranked_jumps(projects: Seq<RankedProject>) -> Seq<u64> {
    projects.map_values(|p: RankedProject| p.jumps)
}

/// The width of the jump count column: the widest count, or 1 for an empty list.
pub open spec fn jump_width_spec(jumps: Seq<u64>) -> nat {
    if jumps.len() == 0 { 1 } else { widest_count(jumps) }
}

/// The width of the position column: the digits of the last position, at least 1.
pub open spec fn position_width_spec(count: nat) -> nat {
    if decimal(count).len() >= 1 { decimal(count).len() } else { 1 }
}

/// The line of the project at `index` (zero-based) in the frequent view: its one-based
/// position and its jump count, each right-aligned to its column, its name and where it lies.
pub open spec fn frequent_entry_spec(
    color: bool,
    index: nat,
    position_width: nat,
    jump_width: nat,
    name: Seq<char>,
    location: Seq<char>,
    jumps: u64,
) -> Seq<char> {
    "  "@ + paint_spec(color, CYAN@, pad_left(decimal(index + 1), position_width) + ")"@) + " "@
        + paint_spec(color, GREEN@, name) + " "@ + paint_spec(color, GRAY@, "("@ + location + ")"@) + " "@
        + paint_spec(color, DIM@, pad_left(decimal(jumps as nat), jump_width) + " "@
            + (if jumps == 1 { "jump"@ } else { "jumps"@ }))
}

/// The lines of the ranked projects, in ranking order.
pub open spec fn frequent_entries_spec(
    color: bool,
    scan_root: Seq<char>,
    position_width: nat,
    jump_width: nat,
    projects: Seq<RankedProject>,
) -> Seq<Seq<char>>
    decreases projects.len(),
{
    if projects.len() == 0 {
        Seq::empty()
    } else {
        let last = projects.last();
        frequent_entries_spec(color, scan_root, position_width, jump_width, projects.drop_last()).push(
            frequent_entry_spec(color, (projects.len() - 1) as nat, position_width, jump_width,
                project_name_spec(last.path@), project_parent_display_spec(scan_root, last.path@), last.jumps))
    }
}

/// The frequent view: the banner, a blank line, one line per ranked project, a blank line.
pub open spec fn render_frequent_spec(
    color: bool,
    app_name: Seq<char>,
    version: Seq<char>,
    scan_root: Seq<char>,
    projects: Seq<RankedProject>,
) -> Seq<Seq<char>> {
    banner_spec(color, app_name, version, "-----------"@, "Frequent projects"@) + seq![Seq::<char>::empty()]
        + frequent_entries_spec(color, scan_root, position_width_spec(projects.len()),
            jump_width_spec(ranked_jumps(projects)), projects) + seq![Seq::<char>::empty()]
}

fn jump_width(projects: &Vec<RankedProject>) -> (r: usize)
    ensures
        r as nat == jump_width_spec(ranked_jumps(projects@)),
{
    let ghost jumps = ranked_jumps(projects@);
    let n = projects.len();
    if n == 0 {
        return 1;
    }
    let mut widest: usize = 0;
    let mut i: usize = 0;
    assert(jumps.take(0) =~= Seq::<u64>::empty());
    while i < n
        invariant
            n == projects@.len(),
            jumps == ranked_jumps(projects@),
            i <= n,
            widest as nat == widest_count(jumps.take(i as int)),
        decreases n - i,
    {
        let width = chars_of(decimal_string(projects[i].jumps).as_str()).len();
        assert(jumps.take(i + 1).drop_last() =~= jumps.take(i as int));
        assert(jumps.take(i + 1).last() == projects@[i as int].jumps);
        if width > widest {
            widest = width;
        }
        i = i + 1;
    }
    assert(jumps.take(n as int) =~= jumps);
    widest
}

fn frequent_entry(
    color: bool,
    index: usize,
    position_width: usize,
    jump_width: usize,
    scan_root: &str,
    project: &RankedProject,
) -> (r: String)
    requires
        index < usize::MAX,
    ensures
        r@ == frequent_entry_spec(color, index as nat, position_width as nat, jump_width as nat,
            project_name_spec(project.path@), project_parent_display_spec(scan_root@, project.path@), project.jumps),
{
    let position = pad_left_string(decimal_string((index + 1) as u64).as_str(), position_width);
    let name = project_name(project.path.as_str());
    let location = project_parent_display(scan_root, project.path.as_str());
    let count = pad_left_string(decimal_string(project.jumps).as_str(), jump_width);
    let noun = if project.jumps == 1 { "jump" } else { "jumps" };
    cat(cat(cat(cat(cat(cat(cat("  ".to_owned(), paint(color, CYAN, cat(position, ")").as_str()).as_str()), " "),
        paint(color, GREEN, name.as_str()).as_str()), " "),
        paint(color, GRAY, cat(cat("(".to_owned(), location.as_str()), ")").as_str()).as_str()), " "),
        paint(color, DIM, cat(cat(count, " "), noun).as_str()).as_str())
}

/// The lines of the frequent view of `projects`, ranked in the order given, with locations
/// shown relative to `scan_root`; the caller writes them to the terminal.
pub fn render_frequent(scan_root: &str, projects: &Vec<RankedProject>, color: bool, app_name: &str, version: &str) -> (r: Vec<String>)
    ensures
        lines_view(r@) == render_frequent_spec(color, app_name@, version@, scan_root@, projects@),
{
    let mut r = banner(color, app_name, version, "-----------", "Frequent projects");
    let ghost b = lines_view(r@);
    r.push(String::new());
    let ghost head = lines_view(r@);
    assert(head =~= b + seq![Seq::<char>::empty()]);
    let n = projects.len();
    let position_width = {
        let digits = chars_of(decimal_string(n as u64).as_str()).len();
        if digits >= 1 { digits } else { 1 }
    };
    let jump_width = jump_width(projects);
    assert(projects@.take(0) =~= Seq::<RankedProject>::empty());
    let mut i: usize = 0;
    while i < n
        invariant
            n == projects@.len(),
            i <= n,
            lines_view(r@) == head + frequent_entries_spec(color, scan_root@, position_width as nat,
                jump_width as nat, projects@.take(i as int)),
        decreases n - i,
    {
        let line = frequent_entry(color, i, position_width, jump_width, scan_root, &projects[i]);
        let ghost before = lines_view(r@);
        r.push(line);
        proof {
            assert(lines_view(r@) =~= before.push(line@));
            assert(projects@.take(i + 1).drop_last() =~= projects@.take(i as int));
            assert(projects@.take(i + 1).last() == projects@[i as int]);
        }
        i = i + 1;
    }
    assert(projects@.take(n as int) =~= projects@);
    let ghost before = lines_view(r@);
    r.push(String::new());
    assert(lines_view(r@) =~= before.push(Seq::<char>::empty()));
    assert(lines_view(r@) =~= render_frequent_spec(color, app_name@, version@, scan_root@, projects@));
    r
}

proof fn lemma_decimal_len_monotone(k: nat, n: nat)
    requires
        k <= n,
    ensures
        1 <= decimal(k).len() <= decimal(n).len(),
    decreases n,
{
    if n >= 10 {
        if k >= 10 {
            lemma_decimal_len_monotone(k / 10, n / 10);
        } else {
            lemma_decimal_len_monotone(0, n / 10);
        }
    }
}

proof fn lemma_widest_count(jumps: Seq<u64>, j: int)
    requires
        0 <= j < jumps.len(),
    ensures
        decimal(jumps[j] as nat).len() <= widest_count(jumps),
    decreases jumps.len(),
{
    if j < jumps.len() - 1 {
        lemma_widest_count(jumps.drop_last(), j);
    }
}

/// The frequent view lines up: every position label `1` to the number of projects fills the
/// position column exactly, and every jump count fills the count column exactly.
pub proof fn frequent_columns_align(projects: Seq<RankedProject>)
    ensures
        forall|k: nat| 1 <= k <= projects.len() ==>
            #[trigger] pad_left(decimal(k), position_width_spec(projects.len())).len()
                == position_width_spec(projects.len()),
        forall|j: int| 0 <= j < projects.len() ==>
            #[trigger] pad_left(decimal(projects[j].jumps as nat), jump_width_spec(ranked_jumps(projects))).len()
                == jump_width_spec(ranked_jumps(projects)),
{
    assert forall|k: nat| 1 <= k <= projects.len() implies
        #[trigger] pad_left(decimal(k), position_width_spec(projects.len())).len()
            == position_width_spec(projects.len()) by {
        lemma_decimal_len_monotone(k, projects.len());
    }
    assert forall|j: int| 0 <= j < projects.len() implies
        #[trigger] pad_left(decimal(projects[j].jumps as nat), jump_width_spec(ranked_jumps(projects))).len()
            == jump_width_spec(ranked_jumps(projects)) by {
        assert(ranked_jumps(projects)[j] == projects[j].jumps);
        lemma_widest_count(ranked_jumps(projects), j);
    }
}

proof fn lemma_frequent_entries(
    color: bool,
    scan_root: Seq<char>,
    position_width: nat,
    jump_width: nat,
    projects: Seq<RankedProject>,
)
    ensures
        frequent_entries_spec(color, scan_root, position_width, jump_width, projects).len() == projects.len(),
        forall|i: int| 0 <= i < projects.len() ==>
            #[trigger] frequent_entries_spec(color, scan_root, position_width, jump_width, projects)[i]
                == frequent_entry_spec(color, i as nat, position_width, jump_width, project_name_spec(projects[i].path@),
                    project_parent_display_spec(scan_root, projects[i].path@), projects[i].jumps),
    decreases projects.len(),
{
    if projects.len() > 0 {
        lemma_frequent_entries(color, scan_root, position_width, jump_width, projects.drop_last());
    }
}

/// The frequent view shows the projects in ranking order: the row of the project at index `i`
/// comes at that place among the rows, labeled with position `i + 1`, the number that selects it.
pub proof fn frequent_rows_follow_ranking(
    color: bool,
    app_name: Seq<char>,
    version: Seq<char>,
    scan_root: Seq<char>,
    projects: Seq<RankedProject>,
    i: int,
)
    requires
        0 <= i < projects.len(),
    ensures
        render_frequent_spec(color, app_name, version, scan_root, projects).len() == projects.len() + 6,
        render_frequent_spec(color, app_name, version, scan_root, projects)[i + 5] == frequent_entry_spec(
            color,
            i as nat,
            position_width_spec(projects.len()),
            jump_width_spec(ranked_jumps(projects)),
            project_name_spec(projects[i].path@),
            project_parent_display_spec(scan_root, projects[i].path@),
            projects[i].jumps,
        ),
{
    let pw = position_width_spec(projects.len());
    let jw = jump_width_spec(ranked_jumps(projects));
    lemma_frequent_entries(color, scan_root, pw, jw, projects);
    let head = banner_spec(color, app_name, version, "-----------"@, "Frequent projects"@) + seq![Seq::<char>::empty()];
    let rows = frequent_entries_spec(color, scan_root, pw, jw, projects);
    assert(head.len() == 5);
    assert((head + rows + seq![Seq::<char>::empty()])[i + 5] == rows[i]);
}

/// The number of lines the block of `sector` takes in the default view: a blank line, the
/// heading, one line per project.
pub open spec fn block_size(sector: Sector) -> nat {
    2 + sector.paths@.len()
}

/// The number of lines the blocks of `sectors` take together.
pub open spec fn block_lines(sectors: Seq<Sector>) -> nat
    decreases sectors.len(),
{
    if sectors.len() == 0 {
        0
    } else {
        block_lines(sectors.drop_last()) + block_size(sectors.last())
    }
}

proof fn lemma_sector_entries(color: bool, paths: Seq<Seq<char>>)
    ensures
        sector_entries_spec(color, paths).len() == paths.len(),
        forall|k: int| 0 <= k < paths.len() ==>
            #[trigger] sector_entries_spec(color, paths)[k] == sector_entry_spec(color, k as nat, paths[k]),
    decreases paths.len(),
{
    if paths.len() > 0 {
        lemma_sector_entries(color, paths.drop_last());
    }
}

proof fn lemma_sector_block(color: bool, sector: Sector)
    ensures
        sector_block_spec(color, sector).len() == block_size(sector),
        sector_block_spec(color, sector)[0] == Seq::<char>::empty(),
        sector_block_spec(color, sector)[1] == sector_heading_spec(color, sector.label@, sector.name@, sector.above@),
        forall|k: int| 0 <= k < sector.paths@.len() ==>
            #[trigger] sector_block_spec(color, sector)[2 + k] == sector_entry_spec(color, k as nat, sector.paths@[k]@),
{
    let paths = sector.paths@.map_values(|p: String| p@);
    lemma_sector_entries(color, paths);
    let head = seq![Seq::<char>::empty(), sector_heading_spec(color, sector.label@, sector.name@, sector.above@)];
    assert forall|k: int| 0 <= k < sector.paths@.len() implies
        #[trigger] sector_block_spec(color, sector)[2 + k] == sector_entry_spec(color, k as nat, sector.paths@[k]@) by {
        assert((head + sector_entries_spec(color, paths))[2 + k] == sector_entries_spec(color, paths)[k]);
        assert(paths[k] == sector.paths@[k]@);
    }
}

proof fn lemma_sectors_layout(color: bool, sectors: Seq<Sector>)
    ensures
        sectors_spec(color, sectors).len() == block_lines(sectors),
        forall|i: int| 0 <= i < sectors.len() ==>
            block_lines(#[trigger] sectors.take(i)) + block_size(sectors[i]) <= block_lines(sectors),
        forall|i: int, k: int| 0 <= i < sectors.len() && 0 <= k < block_size(sectors[i]) ==>
            sectors_spec(color, sectors)[block_lines(sectors.take(i)) + k]
                == #[trigger] sector_block_spec(color, sectors[i])[k],
    decreases sectors.len(),
{
    if sectors.len() > 0 {
        let init = sectors.drop_last();
        let last = sectors.last();
        lemma_sectors_layout(color, init);
        lemma_sector_block(color, last);
        assert forall|i: int| 0 <= i < sectors.len() implies
            block_lines(#[trigger] sectors.take(i)) + block_size(sectors[i]) <= block_lines(sectors) by {
            if i < sectors.len() - 1 {
                assert(sectors.take(i) =~= init.take(i));
                assert(sectors[i] == init[i]);
            } else {
                assert(sectors.take(i) =~= init);
            }
        }
        assert forall|i: int, k: int| 0 <= i < sectors.len() && 0 <= k < block_size(sectors[i]) implies
            sectors_spec(color, sectors)[block_lines(sectors.take(i)) + k]
                == #[trigger] sector_block_spec(color, sectors[i])[k] by {
            if i < sectors.len() - 1 {
                assert(sectors.take(i) =~= init.take(i));
                assert(sectors[i] == init[i]);
                assert(block_lines(init.take(i)) + block_size(init[i]) <= block_lines(init));
                assert(sector_block_spec(color, init[i])[k] == sectors_spec(color, init)[block_lines(init.take(i)) + k]);
            } else {
                assert(sectors.take(i) =~= init);
            }
        }
    }
}

/// The default view lists the sectors in the order given, each as a blank line, its heading and
/// its projects in order, the project at index `k` on the row labeled `k + 1`; and the selector
/// with sector `i` and project index `k` selects exactly the project shown on that row.
pub proof fn default_view_matches_selection(
    color: bool,
    app_name: Seq<char>,
    version: Seq<char>,
    sectors: Seq<Sector>,
    i: int,
)
    requires
        0 <= i < sectors.len(),
    ensures
        render_spec(color, app_name, version, sectors).len() == 5 + block_lines(sectors),
        render_spec(color, app_name, version, sectors)[4 + (block_lines(sectors.take(i)) as int)] == Seq::<char>::empty(),
        render_spec(color, app_name, version, sectors)[4 + (block_lines(sectors.take(i)) as int) + 1]
            == sector_heading_spec(color, sectors[i].label@, sectors[i].name@, sectors[i].above@),
        forall|k: int| 0 <= k < sectors[i].paths@.len() ==> {
            &&& #[trigger] render_spec(color, app_name, version, sectors)[4 + (block_lines(sectors.take(i)) as int) + 2 + k]
                == sector_entry_spec(color, k as nat, sectors[i].paths@[k]@)
            &&& sector_choice(sector_paths(sectors), i as nat, k as nat)
                == Ok::<Seq<char>, Seq<char>>(sectors[i].paths@[k]@)
        },
{
    lemma_sectors_layout(color, sectors);
    lemma_sector_block(color, sectors[i]);
    let banner = banner_spec(color, app_name, version, "--------------"@, "Projects"@);
    let body = sectors_spec(color, sectors);
    let all = render_spec(color, app_name, version, sectors);
    assert(banner.len() == 4);
    let base: int = block_lines(sectors.take(i)) as int;
    assert(all[4 + base] == body[base]) by {
        assert(body[base + 0] == sector_block_spec(color, sectors[i])[0]);
    }
    assert(all[4 + base + 1] == body[base + 1]) by {
        assert(body[base + 1] == sector_block_spec(color, sectors[i])[1]);
    }
    assert forall|k: int| 0 <= k < sectors[i].paths@.len() implies {
        &&& #[trigger] render_spec(color, app_name, version, sectors)[4 + (block_lines(sectors.take(i)) as int) + 2 + k]
            == sector_entry_spec(color, k as nat, sectors[i].paths@[k]@)
        &&& sector_choice(sector_paths(sectors), i as nat, k as nat)
            == Ok::<Seq<char>, Seq<char>>(sectors[i].paths@[k]@)
    } by {
        assert(body[base + (2 + k)] == sector_block_spec(color, sectors[i])[2 + k]);
        assert(all[4 + base + 2 + k] == body[base + 2 + k]);
        assert(sector_paths(sectors)[i] == sectors[i].paths@.map_values(|p: String| p@));
        assert(sector_paths(sectors)[i][k] == sectors[i].paths@[k]@);
    }
}

} // verus!
