//! Filing downloaded episodes: the rules that say which folder holds which
//! series, and the place and name each episode file moves to.
//!
//! Patterns are matched by the `regex` crate. What a pattern captures in a
//! text is named here ([`captured`]), not described; everything built on the
//! captured groups is proved.

use crate::models::{lemma_views_push, text_view, views};
use crate::text::{decimal, parse_u64, parse_unsigned, str_eq, u64_to_string};
use vstd::prelude::*;
use vstd::string::*;

verus! {

pub const NAME_PATTERN: &'static str = r"^(.*?)S\d+";

pub const EPISODE_PATTERN: &'static str = r"S(\d+)E(\d+)";

pub const DEFAULT_TARGET: &'static str = "/data/animenew";

pub const DEFAULT_NUMBER: &'static str = "01";

pub const SEASON: &'static str = "Season ";

pub const ZERO: &'static str = "0";

pub const DASH_S: &'static str = " - S";

pub const E: &'static str = "E";

pub const DOT: &'static str = ".";

pub const SPACE: &'static str = " ";

pub const SEARCH_URL: &'static str =
    "https://api.themoviedb.org/3/search/tv?language=zh-CN&api_key=";

pub const SEARCH_QUERY: &'static str = "&query=";

pub const QUERY_FAILED: &'static str = "TMDB query failed";

pub const SOURCE_DIR_EMPTY: &'static str = "source_dir cannot be empty";

pub const DEFAULT_CONFIG: &'static str = "source_dir = \"\"\ntmdb_api_key = \"\"\n";

#[verifier::external_type_specification]
#[verifier::external_body]
pub struct ExRegex(regex::Regex);

/// Whether `regex::Regex::new` accepts a pattern.
pub uninterp spec fn compiles(pattern: Seq<char>) -> bool;

/// What `regex::Regex::captures` finds in a text for an accepted pattern:
/// nothing when the pattern does not match, otherwise the text of every
/// group of the leftmost match, the whole match first, with `None` for a
/// group that took no part.
pub uninterp spec fn captured(pattern: Seq<char>, haystack: Seq<char>) -> Option<
    Seq<Option<Seq<char>>>,
>;

/// A pattern that compiled, kept with the text it was compiled from.
pub struct Pattern {
    text: String,
    compiled: regex::Regex,
}

impl Pattern {
    /// The text the pattern was compiled from.
    pub closed spec fn source(&self) -> Seq<char> {
        self.text@
    }
}

/// The view of captured groups.
pub open spec fn groups_view(groups: Option<Vec<Option<String>>>) -> Option<Seq<Option<Seq<char>>>> {
    match groups {
        Some(list) => Some(list@.map_values(|group: Option<String>| text_view(group))),
        None => None,
    }
}

/// Calls `regex::Regex::new`. The pattern compiles or it does not, by
/// the crate's grammar, which is not restated here; on success the compiled
/// pattern is returned with its text, on failure the crate's error, in words.
#[verifier::external_body]
pub(crate) fn compile(pattern: &str) -> (r: Result<Pattern, String>)
    ensures
        r is Ok == compiles(pattern@),
        r matches Ok(p) ==> p.source() == pattern@,
{
    match regex::Regex::new(pattern) {
        Ok(compiled) => Ok(Pattern { text: pattern.to_string(), compiled }),
        Err(e) => Err(e.to_string()),
    }
}

/// Calls `regex::Regex::captures` and copies the groups out with
/// `Captures::iter`. A `Pattern` is only ever made by [`compile`], so
/// what is found depends on the pattern's text and on the text searched.
#[verifier::external_body]
pub(crate) fn captures(pattern: &Pattern, haystack: &str) -> (r: Option<Vec<Option<String>>>)
    ensures
        groups_view(r) == captured(pattern.source(), haystack@),
{
    pattern.compiled.captures(haystack).map(
        |found| found.iter().map(|group| group.map(|m| m.as_str().to_string())).collect(),
    )
}

/// A rule: the episodes found in `folder_name` belong to the series
/// `chinese_name`, are recognised by `pattern`, and are filed under `target_dir`.
#[derive(Clone, Debug, PartialEq, Eq)]
pub struct ArchiveRule {
    pub folder_name: String,
    pub chinese_name: String,
    pub target_dir: String,
    pub pattern: String,
}

pub struct ArchiveRuleView {
    pub folder_name: Seq<char>,
    pub chinese_name: Seq<char>,
    pub target_dir: Seq<char>,
    pub pattern: Seq<char>,
}

impl View for ArchiveRule {
    type V = ArchiveRuleView;

    open spec fn view(&self) -> ArchiveRuleView {
        ArchiveRuleView {
            folder_name: self.folder_name@,
            chinese_name: self.chinese_name@,
            target_dir: self.target_dir@,
            pattern: self.pattern@,
        }
    }
}

impl ArchiveRule {
    /// A copy of this rule.
    pub fn duplicate(&self) -> (r: ArchiveRule)
        ensures
            r@ == self@,
    {
        ArchiveRule {
            folder_name: self.folder_name.clone(),
            chinese_name: self.chinese_name.clone(),
            target_dir: self.target_dir.clone(),
            pattern: self.pattern.clone(),
        }
    }
}

/// A folder found in the source directory, with the series name looked up
/// for it; the name matters only where the folder has no rule yet.
#[derive(Clone, Debug, PartialEq, Eq)]
pub struct Folder {
    pub name: String,
    pub chinese_name: String,
}

pub struct FolderView {
    pub name: Seq<char>,
    pub chinese_name: Seq<char>,
}

impl View for Folder {
    type V = FolderView;

    open spec fn view(&self) -> FolderView {
        FolderView { name: self.name@, chinese_name: self.chinese_name@ }
    }
}

/// The text of a group, or a default where the group is absent or took no
/// part in the match.
pub open spec fn group_or(groups: Seq<Option<Seq<char>>>, index: int, default: Seq<char>) -> Seq<char> {
    if 0 <= index < groups.len() {
        match groups[index] {
            Some(text) => text,
            None => default,
        }
    } else {
        default
    }
}

/// A text with every dot replaced by a space.
pub open spec fn dots_to_spaces(text: Seq<char>) -> Seq<char> {
    text.map_values(|c: char| if c == '.' { ' ' } else { c })
}

/// The series name that a folder name spells before its season marker,
/// given what the name pattern captured in it.
pub open spec fn spelled_name(found: Option<Seq<Option<Seq<char>>>>) -> Option<Seq<char>> {
    match found {
        Some(groups) => Some(dots_to_spaces(group_or(groups, 1, Seq::empty()))),
        None => None,
    }
}

/// Reads a group.
fn group<'a>(groups: &'a Vec<Option<String>>, index: usize, default: &'a str) -> (r: &'a str)
    ensures
        r@ == group_or(groups@.map_values(|g: Option<String>| text_view(g)), index as int, default@),
{
    if index < groups.len() {
        match &groups[index] {
            Some(text) => text.as_str(),
            None => default,
        }
    } else {
        default
    }
}

/// Reads the series name out of what the name pattern captured.
pub fn raw_name(found: &Option<Vec<Option<String>>>) -> (r: Option<String>)
    ensures
        text_view(r) == spelled_name(groups_view(*found)),
{
    match found {
        None => None,
        Some(groups) => {
            let name = group(groups, 1, "");
            proof {
                reveal_strlit("");
                assert(""@ =~= Seq::<char>::empty());
                reveal_strlit(" ");
                assert(SPACE@ =~= seq![' ']);
            }
            let length = name.unicode_len();
            let mut out = String::new();
            let mut i: usize = 0;
            while i < length
                invariant
                    i <= length,
                    length == name@.len(),
                    SPACE@ == seq![' '],
                    out@ == dots_to_spaces(name@).take(i as int),
                decreases length - i,
            {
                if name.get_char(i) == '.' {
                    out.append(SPACE);
                } else {
                    out.append(name.substring_char(i, i + 1));
                }
                assert(out@ =~= dots_to_spaces(name@).take(i + 1));
                i += 1;
            }
            assert(dots_to_spaces(name@).take(i as int) == dots_to_spaces(name@));
            Some(out)
        },
    }
}

/// The series name that a folder name spells before its season marker: the
/// text before the first `S` that digits follow, with dots read as spaces.
/// `Err` tells that the name pattern was not accepted.
pub fn extract_name(folder_name: &str) -> (r: Result<Option<String>, String>)
    ensures
        r is Ok == compiles(NAME_PATTERN@),
        r matches Ok(name) ==> text_view(name) == spelled_name(captured(NAME_PATTERN@, folder_name@)),
{
    match compile(NAME_PATTERN) {
        Err(e) => Err(e),
        Ok(pattern) => {
            let found = captures(&pattern, folder_name);
            Ok(raw_name(&found))
        },
    }
}

/// The address of a search for a series by name.
pub fn query_tmdb(raw_name: &str, api_key: &str) -> (r: String)
    ensures
        r@ == SEARCH_URL@ + api_key@ + SEARCH_QUERY@ + raw_name@,
{
    let mut out = String::from_str(SEARCH_URL);
    out.append(api_key);
    out.append(SEARCH_QUERY);
    out.append(raw_name);
    out
}

/// The series name in the answer to a search, given the names of the
/// results it lists: the name of the first result, if there is one and it
/// has a name.
pub open spec fn first_name(names: Option<Seq<Option<Seq<char>>>>) -> Result<Seq<char>, Seq<char>> {
    match names {
        Some(list) => if list.len() > 0 {
            match list[0] {
                Some(first) => Ok(first),
                None => Err(QUERY_FAILED@),
            }
        } else {
            Err(QUERY_FAILED@)
        },
        None => Err(QUERY_FAILED@),
    }
}

/// The view of a name or a reason.
pub open spec fn name_view(r: Result<String, String>) -> Result<Seq<char>, Seq<char>> {
    match r {
        Ok(name) => Ok(name@),
        Err(e) => Err(e@),
    }
}

/// Reads the series name out of the answer to a search.
pub fn first_result(names: &Option<Vec<Option<String>>>) -> (r: Result<String, String>)
    ensures
        name_view(r) == first_name(groups_view(*names)),
{
    match names {
        Some(list) => if list.len() > 0 {
            match &list[0] {
                Some(first) => Ok(first.clone()),
                None => Err(String::from_str(QUERY_FAILED)),
            }
        } else {
            Err(String::from_str(QUERY_FAILED))
        },
        None => Err(String::from_str(QUERY_FAILED)),
    }
}

/// A configuration is usable only if it names the source directory.
pub fn load_config(source_dir: &str) -> (r: Result<(), String>)
    ensures
        match r {
            Ok(_) => source_dir@.len() > 0,
            Err(e) => source_dir@.len() == 0 && e@ == SOURCE_DIR_EMPTY@,
        },
{
    if source_dir.is_empty() {
        Err(String::from_str(SOURCE_DIR_EMPTY))
    } else {
        Ok(())
    }
}

/// The rule in force for a folder: the last one that names it.
pub open spec fn rule_in_force(rules: Seq<ArchiveRuleView>, folder: Seq<char>) -> Option<
    ArchiveRuleView,
>
    decreases rules.len(),
{
    if rules.len() == 0 {
        None
    } else if rules.last().folder_name == folder {
        Some(rules.last())
    } else {
        rule_in_force(rules.drop_last(), folder)
    }
}

/// Whether one of the first `k` folders has this name.
pub open spec fn named_before(folders: Seq<FolderView>, k: int, name: Seq<char>) -> bool {
    exists|j: int| 0 <= j < k && j < folders.len() && (#[trigger] folders[j]).name == name
}

/// The rule made for a folder that has none.
pub open spec fn fresh_rule(folder: FolderView) -> ArchiveRuleView {
    ArchiveRuleView {
        folder_name: folder.name,
        chinese_name: folder.chinese_name,
        target_dir: DEFAULT_TARGET@,
        pattern: EPISODE_PATTERN@,
    }
}

/// The rule of the folder at position `k`: the rule in force for it, once;
/// a fresh rule where there is none, or where an earlier folder of the same
/// name took it.
pub open spec fn rule_of_folder(rules: Seq<ArchiveRuleView>, folders: Seq<FolderView>, k: int) -> ArchiveRuleView {
    match rule_in_force(rules, folders[k].name) {
        Some(rule) => if named_before(folders, k, folders[k].name) {
            fresh_rule(folders[k])
        } else {
            rule
        },
        None => fresh_rule(folders[k]),
    }
}

/// The rules of the first `k` folders, in the folders' order.
pub open spec fn folder_rules(rules: Seq<ArchiveRuleView>, folders: Seq<FolderView>, k: int) -> Seq<
    ArchiveRuleView,
>
    decreases k,
{
    if k <= 0 {
        Seq::empty()
    } else {
        folder_rules(rules, folders, k - 1).push(rule_of_folder(rules, folders, k - 1))
    }
}

/// Whether the rule at position `i` is kept though no folder names it: it
/// is in force, that is, no later rule names the same folder.
pub open spec fn kept_without_folder(rules: Seq<ArchiveRuleView>, folders: Seq<FolderView>, i: int) -> bool {
    &&& !named_before(folders, folders.len() as int, rules[i].folder_name)
    &&& forall|j: int| i < j < rules.len() ==> (#[trigger] rules[j]).folder_name != rules[i].folder_name
}

/// Those of the first `k` rules that are kept though no folder names them.
pub open spec fn kept_rules(rules: Seq<ArchiveRuleView>, folders: Seq<FolderView>, k: int) -> Seq<
    ArchiveRuleView,
>
    decreases k,
{
    if k <= 0 {
        Seq::empty()
    } else if kept_without_folder(rules, folders, k - 1) {
        kept_rules(rules, folders, k - 1).push(rules[k - 1])
    } else {
        kept_rules(rules, folders, k - 1)
    }
}

/// The rules after a look at the source directory: one rule per folder
/// found, in the order found, then the rules in force for folders that
/// were not found.
pub open spec fn updated_rules(rules: Seq<ArchiveRuleView>, folders: Seq<FolderView>) -> Seq<
    ArchiveRuleView,
> {
    folder_rules(rules, folders, folders.len() as int) + kept_rules(
        rules,
        folders,
        rules.len() as int,
    )
}

/// Finds the rule in force for a folder.
pub fn find_rule(rules: &Vec<ArchiveRule>, folder_name: &str) -> (r: Option<usize>)
    ensures
        match r {
            Some(i) => i < rules.len() && rule_in_force(views(rules@), folder_name@) == Some(
                rules@[i as int]@,
            ),
            None => rule_in_force(views(rules@), folder_name@) is None,
        },
{
    let ghost all = views(rules@);
    let mut i: usize = rules.len();
    assert(all.take(i as int) == all);
    while i > 0
        invariant
            i <= rules.len(),
            all == views(rules@),
            rule_in_force(all, folder_name@) == rule_in_force(all.take(i as int), folder_name@),
        decreases i,
    {
        assert(all.take(i as int).drop_last() == all.take(i - 1));
        if str_eq(rules[i - 1].folder_name.as_str(), folder_name) {
            return Some(i - 1);
        }
        i -= 1;
    }
    None
}

/// Whether a series name has to be looked up for a folder: it has to where
/// no rule names the folder.
pub fn needs_name(rules: &Vec<ArchiveRule>, folder_name: &str) -> (r: bool)
    ensures
        r == (rule_in_force(views(rules@), folder_name@) is None),
{
    find_rule(rules, folder_name).is_none()
}

/// Whether one of the first `k` folders has this name.
fn seen_before(folders: &Vec<Folder>, k: usize, name: &str) -> (r: bool)
    requires
        k <= folders.len(),
    ensures
        r == named_before(views(folders@), k as int, name@),
{
    let mut j: usize = 0;
    while j < k
        invariant
            j <= k <= folders.len(),
            forall|i: int| 0 <= i < j ==> (#[trigger] views(folders@)[i]).name != name@,
        decreases k - j,
    {
        if str_eq(folders[j].name.as_str(), name) {
            assert(views(folders@)[j as int].name == name@);
            return true;
        }
        j += 1;
    }
    false
}

/// Brings the rules up to date with the folders found in the source directory.
pub fn update_rules(rules: &Vec<ArchiveRule>, folders: &Vec<Folder>) -> (r: Vec<ArchiveRule>)
    ensures
        views(r@) == updated_rules(views(rules@), views(folders@)),
{
    let ghost old_rules = views(rules@);
    let ghost found = views(folders@);
    let mut out: Vec<ArchiveRule> = Vec::new();
    let mut k: usize = 0;
    assert(views(out@) =~= folder_rules(old_rules, found, 0));
    while k < folders.len()
        invariant
            k <= folders.len(),
            old_rules == views(rules@),
            found == views(folders@),
            views(out@) == folder_rules(old_rules, found, k as int),
        decreases folders.len() - k,
    {
        let folder = &folders[k];
        let fresh = ArchiveRule {
            folder_name: folder.name.clone(),
            chinese_name: folder.chinese_name.clone(),
            target_dir: String::from_str(DEFAULT_TARGET),
            pattern: String::from_str(EPISODE_PATTERN),
        };
        let rule = match find_rule(rules, folder.name.as_str()) {
            Some(i) => if seen_before(folders, k, folder.name.as_str()) {
                fresh
            } else {
                rules[i].duplicate()
            },
            None => fresh,
        };
        proof {
            lemma_views_push(out@, rule);
        }
        out.push(rule);
        k += 1;
    }
    let ghost listed = views(out@);
    let mut i: usize = 0;
    assert(listed + kept_rules(old_rules, found, 0) =~= listed);
    while i < rules.len()
        invariant
            i <= rules.len(),
            old_rules == views(rules@),
            found == views(folders@),
            listed == folder_rules(old_rules, found, found.len() as int),
            views(out@) == listed + kept_rules(old_rules, found, i as int),
        decreases rules.len() - i,
    {
        let name = rules[i].folder_name.as_str();
        let mut later = false;
        let mut j: usize = i + 1;
        while j < rules.len()
            invariant
                i < j <= rules.len(),
                old_rules == views(rules@),
                name@ == old_rules[i as int].folder_name,
                later == (exists|m: int| i < m < j && (#[trigger] old_rules[m]).folder_name == name@),
            decreases rules.len() - j,
        {
            if str_eq(rules[j].folder_name.as_str(), name) {
                assert(old_rules[j as int].folder_name == name@);
                later = true;
            }
            j += 1;
        }
        if !later && !seen_before(folders, folders.len(), name) {
            let rule = rules[i].duplicate();
            proof {
                lemma_views_push(out@, rule);
                assert(kept_without_folder(old_rules, found, i as int));
                assert((listed + kept_rules(old_rules, found, i as int)).push(rule@) =~= listed
                    + kept_rules(old_rules, found, i + 1));
            }
            out.push(rule);
        } else {
            assert(!kept_without_folder(old_rules, found, i as int));
        }
        i += 1;
    }
    out
}

/// Why an episode could not be filed.
#[derive(Clone, Debug, PartialEq, Eq)]
pub enum ArchiveError {
    /// The rule's pattern was not accepted; with the reason.
    BadPattern(String),
    /// What the pattern captured as the season is not a number.
    BadSeason(String),
}

/// Where an episode file moves to.
#[derive(Clone, Debug, PartialEq, Eq)]
pub struct Move {
    /// The series' directory under the target directory.
    pub series: String,
    /// The season's directory under the series' directory.
    pub season: String,
    /// The new name of the file.
    pub file_name: String,
}

pub struct MoveView {
    pub series: Seq<char>,
    pub season: Seq<char>,
    pub file_name: Seq<char>,
}

impl View for Move {
    type V = MoveView;

    open spec fn view(&self) -> MoveView {
        MoveView { series: self.series@, season: self.season@, file_name: self.file_name@ }
    }
}

/// A number in at least two digits.
pub open spec fn two_digits(n: nat) -> Seq<char> {
    if n < 10 {
        ZERO@ + decimal(n as int)
    } else {
        decimal(n as int)
    }
}

/// A file extension with its dot, or nothing.
pub open spec fn dotted(extension: Option<Seq<char>>) -> Seq<char> {
    match extension {
        Some(ext) => DOT@ + ext,
        None => Seq::empty(),
    }
}

/// The season number spelled by captured text, if it is one that fits in 32 bits.
pub open spec fn season_number(season: Seq<char>) -> Option<nat> {
    match parse_unsigned(season) {
        Some(n) => if n <= u32::MAX {
            Some(n as nat)
        } else {
            None
        },
        None => None,
    }
}

/// Where a file moves to, given what the rule's pattern captured in its
/// name: season and episode are the first two groups, each `01` where
/// absent; the file goes to the season's directory of the series and is
/// named after series, season and episode, keeping its extension. A file
/// the pattern does not match stays; a season that is not a number is an
/// error.
pub open spec fn filed(
    chinese_name: Seq<char>,
    found: Option<Seq<Option<Seq<char>>>>,
    extension: Option<Seq<char>>,
) -> Result<Option<MoveView>, Seq<char>> {
    match found {
        None => Ok(None),
        Some(groups) => {
            let season = group_or(groups, 1, DEFAULT_NUMBER@);
            let episode = group_or(groups, 2, DEFAULT_NUMBER@);
            match season_number(season) {
                None => Err(season),
                Some(n) => Ok(
                    Some(
                        MoveView {
                            series: chinese_name,
                            season: SEASON@ + two_digits(n),
                            file_name: chinese_name + DASH_S@ + season + E@ + episode + dotted(
                                extension,
                            ),
                        },
                    ),
                ),
            }
        },
    }
}

/// The view of a filing decision made on captured groups.
pub open spec fn filing_view(r: Result<Option<Move>, ArchiveError>) -> Result<
    Option<MoveView>,
    Seq<char>,
> {
    match r {
        Ok(Some(m)) => Ok(Some(m@)),
        Ok(None) => Ok(None),
        Err(ArchiveError::BadSeason(s)) => Err(s@),
        Err(ArchiveError::BadPattern(s)) => Err(s@),
    }
}

/// Decides where a file moves to from what the rule's pattern captured in its name.
pub fn file_episode(
    chinese_name: &str,
    found: &Option<Vec<Option<String>>>,
    extension: &Option<String>,
) -> (r: Result<Option<Move>, ArchiveError>)
    ensures
        !(r matches Err(ArchiveError::BadPattern(_))),
        filing_view(r) == filed(chinese_name@, groups_view(*found), text_view(*extension)),
{
    match found {
        None => Ok(None),
        Some(groups) => {
            let season = group(groups, 1, DEFAULT_NUMBER);
            let episode = group(groups, 2, DEFAULT_NUMBER);
            let number = match parse_u64(season) {
                Some(n) => if n <= u32::MAX as u64 {
                    n
                } else {
                    return Err(ArchiveError::BadSeason(String::from_str(season)));
                },
                None => {
                    return Err(ArchiveError::BadSeason(String::from_str(season)));
                },
            };
            let mut directory = String::from_str(SEASON);
            if number < 10 {
                directory.append(ZERO);
            }
            let digits = u64_to_string(number);
            directory.append(digits.as_str());
            assert(directory@ =~= SEASON@ + two_digits(number as nat));
            let mut file_name = String::from_str(chinese_name);
            file_name.append(DASH_S);
            file_name.append(season);
            file_name.append(E);
            file_name.append(episode);
            match extension {
                Some(ext) => {
                    file_name.append(DOT);
                    file_name.append(ext.as_str());
                    assert(file_name@ =~= chinese_name@ + DASH_S@ + season@ + E@ + episode@ + (DOT@
                        + ext@));
                },
                None => {
                    assert(file_name@ =~= chinese_name@ + DASH_S@ + season@ + E@ + episode@
                        + Seq::<char>::empty());
                },
            }
            Ok(Some(Move { series: String::from_str(chinese_name), season: directory, file_name }))
        },
    }
}

/// Whether a rule files anything: a rule without a series name does not.
pub fn is_active(rule: &ArchiveRule) -> (r: bool)
    ensures
        r == (rule@.chinese_name.len() > 0),
{
    !rule.chinese_name.as_str().is_empty()
}

/// Compiles the pattern of a rule.
pub fn rule_pattern(rule: &ArchiveRule) -> (r: Result<Pattern, ArchiveError>)
    ensures
        r is Ok == compiles(rule@.pattern),
        r matches Ok(p) ==> p.source() == rule@.pattern,
        r matches Err(e) ==> e is BadPattern,
{
    match compile(rule.pattern.as_str()) {
        Ok(p) => Ok(p),
        Err(e) => Err(ArchiveError::BadPattern(e)),
    }
}

/// Decides where a file in a rule's folder moves to: the rule's pattern is
/// matched against the file's name, and [`file_episode`] decides on what
/// it captured.
pub fn process_files(
    rule: &ArchiveRule,
    pattern: &Pattern,
    file_name: &str,
    extension: &Option<String>,
) -> (r: Result<Option<Move>, ArchiveError>)
    ensures
        filing_view(r) == filed(
            rule@.chinese_name,
            captured(pattern.source(), file_name@),
            text_view(*extension),
        ),
{
    let found = captures(pattern, file_name);
    file_episode(rule.chinese_name.as_str(), &found, extension)
}

/// An entry of the watcher's configuration: a source folder, where its
/// files go, and the pattern that recognises them.
#[derive(Clone, Debug, PartialEq, Eq)]
pub struct ConfigEntry {
    pub source: String,
    pub destination: String,
    pub regex: String,
}

pub struct ConfigEntryView {
    pub source: Seq<char>,
    pub destination: Seq<char>,
    pub regex: Seq<char>,
}

impl View for ConfigEntry {
    type V = ConfigEntryView;

    open spec fn view(&self) -> ConfigEntryView {
        ConfigEntryView { source: self.source@, destination: self.destination@, regex: self.regex@ }
    }
}

/// Some entry has this source.
pub open spec fn has_source(entries: Seq<ConfigEntryView>, source: Seq<char>) -> bool {
    exists|i: int| 0 <= i < entries.len() && (#[trigger] entries[i]).source == source
}

/// The entry proposed for a folder that is not configured.
pub open spec fn proposed(folder: Seq<char>) -> ConfigEntryView {
    ConfigEntryView { source: folder, destination: Seq::empty(), regex: EPISODE_PATTERN@ }
}

/// The pending entries after the first `k` folders have been looked at:
/// a folder that is neither configured nor pending gets a proposed entry.
pub open spec fn pending_after(
    config: Seq<ConfigEntryView>,
    pending: Seq<ConfigEntryView>,
    folders: Seq<Seq<char>>,
    k: int,
) -> Seq<ConfigEntryView>
    decreases k,
{
    if k <= 0 {
        pending
    } else {
        let before = pending_after(config, pending, folders, k - 1);
        if has_source(config, folders[k - 1]) || has_source(before, folders[k - 1]) {
            before
        } else {
            before.push(proposed(folders[k - 1]))
        }
    }
}

/// Whether some entry has this source.
fn knows(entries: &Vec<ConfigEntry>, source: &str) -> (r: bool)
    ensures
        r == has_source(views(entries@), source@),
{
    let mut i: usize = 0;
    while i < entries.len()
        invariant
            i <= entries.len(),
            forall|j: int| 0 <= j < i ==> (#[trigger] views(entries@)[j]).source != source@,
        decreases entries.len() - i,
    {
        if str_eq(entries[i].source.as_str(), source) {
            assert(views(entries@)[i as int].source == source@);
            return true;
        }
        i += 1;
    }
    false
}

/// One look of the watcher at the watched directory: every folder that is
/// neither configured nor pending is added to the pending entries.
pub fn monitor_folder(config: &Vec<ConfigEntry>, pending: Vec<ConfigEntry>, folders: &Vec<String>) -> (r:
    Vec<ConfigEntry>)
    ensures
        views(r@) == pending_after(
            views(config@),
            views(pending@),
            views(folders@),
            folders@.len() as int,
        ),
{
    let ghost start = views(pending@);
    let mut out = pending;
    let mut k: usize = 0;
    while k < folders.len()
        invariant
            k <= folders.len(),
            views(out@) == pending_after(views(config@), start, views(folders@), k as int),
        decreases folders.len() - k,
    {
        let name = folders[k].as_str();
        if !knows(config, name) && !knows(&out, name) {
            let entry = ConfigEntry {
                source: String::from_str(name),
                destination: String::new(),
                regex: String::from_str(EPISODE_PATTERN),
            };
            proof {
                lemma_views_push(out@, entry);
            }
            out.push(entry);
        }
        k += 1;
    }
    out
}

} // verus!
