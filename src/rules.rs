//! Rules, rule sets, and the parser of rule-block files.

use vstd::prelude::*;
use crate::color_item::{clear_text, escape_text, CgrcColorItem};
use crate::palette::{forg_by_name, spec_forg_by_name, CgrcAttrib, CgrcCountMode, LcBackColor, LcLogColor};
use crate::pattern::{compile_pattern, pattern_compiles, Pattern};
use crate::text::{rest_after, split_at_char, split_on, starts_with, has_prefix, text_eq, trim, trimmed};

verus! {

/// One rule: a pattern, a color per capture group, and whether a match ends the search.
#[derive(Debug)]
pub struct CgrcConfItem {
    pub regex: Option<Pattern>,
    pub colors: Vec<CgrcColorItem>,
    pub skip: Option<bool>,
    pub count_mode: Option<CgrcCountMode>,
}

/// The ordered rules of one rule-block file.
#[derive(Debug)]
pub struct CgrcConf {
    pub items: Vec<CgrcConfItem>,
    pub description: Option<String>,
}

/// Why a rule-block file gives no rule set.
#[derive(Debug)]
pub enum ConfigError {
    /// A `regexp=` line whose pattern does not compile, with the compiler's message.
    InvalidPattern { line: String, message: String },
    /// The file parsed, but holds no rule.
    EmptyRuleSet,
}

/// What the parser records of a rule: the pattern text, the foreground of each
/// color slot, and the skip flag.
pub struct RuleModel {
    pub pattern: Option<Seq<char>>,
    pub colors: Seq<LcLogColor>,
    pub skip: Option<bool>,
}

/// The parser's state: the rules finished so far and the one in progress.
pub struct ParseState {
    pub done: Seq<RuleModel>,
    pub current: RuleModel,
}

pub open spec fn blank_rule() -> RuleModel {
    RuleModel { pattern: None, colors: Seq::empty(), skip: None }
}

/// The foreground a color name resolves to; unknown names give the default.
pub open spec fn forg_or_default(name: Seq<char>) -> LcLogColor {
    match spec_forg_by_name(name) {
        Some(f) => f,
        None => LcLogColor::LcForgColDefault,
    }
}

/// The foregrounds of a comma-separated list of color names.
pub open spec fn color_list(text: Seq<char>) -> Seq<LcLogColor> {
    split_on(text, ',').map_values(|n: Seq<char>| forg_or_default(trimmed(n)))
}

/// A color as the parser builds it: the given foreground, default background, no attributes.
pub open spec fn is_parsed_color(c: CgrcColorItem, forg: LcLogColor) -> bool {
    &&& c.wf()
    &&& c.attrs@.len() == 0
    &&& c.back == LcBackColor::LcBackColDefault
    &&& c.forg == forg
}

impl CgrcConfItem {
    pub open spec fn pattern_text(&self) -> Option<Seq<char>> {
        match self.regex {
            Some(p) => Some(p@),
            None => None,
        }
    }

    pub open spec fn model(&self) -> RuleModel {
        RuleModel {
            pattern: self.pattern_text(),
            colors: self.colors@.map_values(|c: CgrcColorItem| c.forg),
            skip: self.skip,
        }
    }

    /// Every color was built as the parser builds them, and no count mode is set.
    pub open spec fn parsed_wf(&self) -> bool {
        &&& forall|i: int|
            0 <= i < self.colors@.len() ==> is_parsed_color(
                #[trigger] self.colors@[i],
                self.colors@[i].forg,
            )
        &&& self.count_mode is None
    }

    pub fn new() -> (r: CgrcConfItem)
        ensures
            r.model() == blank_rule(),
            r.parsed_wf(),
    {
        let r = CgrcConfItem { regex: None, colors: Vec::new(), skip: None, count_mode: None };
        assert(r.model().colors =~= Seq::<LcLogColor>::empty());
        r
    }
}

impl PartialEq for CgrcConfItem {
    /// Two rules are equal when their patterns have the same text, or both have none.
    fn eq(&self, other: &Self) -> (r: bool) {
        match &self.regex {
            None => other.regex.is_none(),
            Some(r1) => match &other.regex {
                None => false,
                Some(r2) => r1.same_source(r2),
            },
        }
    }
}

impl vstd::std_specs::cmp::PartialEqSpecImpl for CgrcConfItem {
    open spec fn obeys_eq_spec() -> bool {
        true
    }

    open spec fn eq_spec(&self, other: &CgrcConfItem) -> bool {
        self.pattern_text() == other.pattern_text()
    }
}

pub open spec fn models(items: Seq<CgrcConfItem>) -> Seq<RuleModel> {
    items.map_values(|i: CgrcConfItem| i.model())
}

pub open spec fn all_parsed_wf(items: Seq<CgrcConfItem>) -> bool {
    forall|i: int| 0 <= i < items.len() ==> (#[trigger] items[i]).parsed_wf()
}

impl CgrcConf {
    pub fn new() -> (r: CgrcConf)
        ensures
            r.items@.len() == 0,
            r.description is None,
    {
        CgrcConf { items: Vec::new(), description: None }
    }
}

/// One trimmed line's effect on the parser; `None` when it names a pattern that
/// does not compile.
pub open spec fn step(st: ParseState, line: Seq<char>) -> Option<ParseState> {
    if line.len() == 0 || line[0] == '#' {
        Some(st)
    } else if has_prefix(line, "regexp="@) {
        let p = line.skip("regexp="@.len() as int);
        if !pattern_compiles(p) {
            None
        } else {
            let base = if st.current.pattern is Some {
                ParseState { done: st.done.push(st.current), current: blank_rule() }
            } else {
                st
            };
            Some(ParseState { current: RuleModel { pattern: Some(p), ..base.current }, ..base })
        }
    } else if has_prefix(line, "colours="@) {
        let names = line.skip("colours="@.len() as int);
        Some(ParseState { current: RuleModel { colors: color_list(names), ..st.current }, ..st })
    } else if has_prefix(line, "skip="@) {
        let v = line.skip("skip="@.len() as int);
        Some(ParseState { current: RuleModel { skip: Some(v == "yes"@), ..st.current }, ..st })
    } else if line == "-"@ {
        Some(ParseState { done: st.done.push(st.current), current: blank_rule() })
    } else {
        Some(st)
    }
}

/// The state after the given lines, or the index of the line that failed.
pub open spec fn run(lines: Seq<Seq<char>>) -> Result<ParseState, int>
    decreases lines.len(),
{
    if lines.len() == 0 {
        Ok(ParseState { done: Seq::empty(), current: blank_rule() })
    } else {
        match run(lines.drop_last()) {
            Err(k) => Err(k),
            Ok(st) => match step(st, trimmed(lines.last())) {
                Some(next) => Ok(next),
                None => Err(lines.len() - 1),
            },
        }
    }
}

/// The rules of a file: those finished, and the one in progress if it has a pattern.
pub open spec fn parse_rules(lines: Seq<Seq<char>>) -> Result<Seq<RuleModel>, int> {
    match run(lines) {
        Err(k) => Err(k),
        Ok(st) => Ok(
            if st.current.pattern is Some {
                st.done.push(st.current)
            } else {
                st.done
            },
        ),
    }
}

pub open spec fn line_texts(lines: Seq<String>) -> Seq<Seq<char>> {
    lines.map_values(|l: String| l@)
}

/// Resolves each comma-separated color name to a color with the default background.
pub fn parse_colors(colors_str: &str) -> (r: Vec<CgrcColorItem>)
    ensures
        r@.map_values(|c: CgrcColorItem| c.forg) == color_list(colors_str@),
        forall|i: int| 0 <= i < r@.len() ==> is_parsed_color(#[trigger] r@[i], r@[i].forg),
{
    let names = split_at_char(colors_str, ',');
    let ghost pieces = split_on(colors_str@, ',');
    let mut out: Vec<CgrcColorItem> = Vec::new();
    let mut i: usize = 0;
    while i < names.len()
        invariant
            i <= names.len(),
            names@.map_values(|p: String| p@) == pieces,
            out@.map_values(|c: CgrcColorItem| c.forg) == pieces.take(i as int).map_values(
                |n: Seq<char>| forg_or_default(trimmed(n)),
            ),
            forall|j: int| 0 <= j < out@.len() ==> is_parsed_color(#[trigger] out@[j], out@[j].forg),
        decreases names.len() - i,
    {
        let name = trim(names[i].as_str());
        let forg = match forg_by_name(name) {
            Some(f) => f,
            None => LcLogColor::LcForgColDefault,
        };
        let item = CgrcColorItem::new(Vec::new(), forg, LcBackColor::LcBackColDefault);
        let ghost before = out@;
        out.push(item);
        assert(names@[i as int]@ == pieces[i as int]);
        assert(pieces.take(i + 1) == pieces.take(i as int).push(pieces[i as int]));
        assert(out@.map_values(|c: CgrcColorItem| c.forg) =~= before.map_values(
            |c: CgrcColorItem| c.forg,
        ).push(forg));
        i += 1;
    }
    assert(pieces.take(names.len() as int) == pieces);
    out
}

/// Once a line fails, the parse of every longer file fails at that line.
proof fn lemma_run_error_persists(lines: Seq<Seq<char>>, n: int)
    requires
        0 <= n <= lines.len(),
        run(lines.take(n)) is Err,
    ensures
        run(lines) == run(lines.take(n)),
    decreases lines.len() - n,
{
    if n < lines.len() {
        let longer = lines.take(n + 1);
        assert(longer.drop_last() == lines.take(n));
        lemma_run_error_persists(lines, n + 1);
    } else {
        assert(lines.take(n) == lines);
    }
}

/// Applies one trimmed line of a rule-block file to the rule in progress and the rules so far.
pub fn parse_config_line(line: &str, current_item: &mut CgrcConfItem, conf: &mut CgrcConf) -> (r:
    Result<(), ConfigError>)
    requires
        old(current_item).parsed_wf(),
        all_parsed_wf(old(conf).items@),
    ensures
        final(current_item).parsed_wf(),
        all_parsed_wf(final(conf).items@),
        final(conf).description == old(conf).description,
        ({
            let st = ParseState { done: models(old(conf).items@), current: old(current_item).model() };
            match step(st, line@) {
                None => r matches Err(ConfigError::InvalidPattern { line: l, .. }) && l@ == line@,
                Some(next) => {
                    &&& r is Ok
                    &&& models(final(conf).items@) == next.done
                    &&& final(current_item).model() == next.current
                },
            }
        }),
{
    let ghost st = ParseState { done: models(conf.items@), current: current_item.model() };
    if line.unicode_len() == 0 || line.get_char(0) == '#' {
        return Ok(());
    }
    if starts_with(line, "regexp=") {
        let source = rest_after(line, "regexp=".unicode_len());
        match compile_pattern(source.as_str()) {
            Err(message) => {
                return Err(ConfigError::InvalidPattern { line: String::from_str(line), message });
            },
            Ok(p) => {
                if current_item.regex.is_some() {
                    let mut finished = CgrcConfItem::new();
                    std::mem::swap(&mut finished, current_item);
                    let ghost before = conf.items@;
                    conf.items.push(finished);
                    assert(models(conf.items@) =~= models(before).push(finished.model()));
                }
                current_item.regex = Some(p);
                assert(current_item.model().colors =~= current_item.colors@.map_values(
                    |c: CgrcColorItem| c.forg,
                ));
                return Ok(());
            },
        }
    }
    if starts_with(line, "colours=") {
        let names = rest_after(line, "colours=".unicode_len());
        current_item.colors = parse_colors(names.as_str());
        return Ok(());
    }
    if starts_with(line, "skip=") {
        let value = rest_after(line, "skip=".unicode_len());
        current_item.skip = Some(text_eq(value.as_str(), "yes"));
        return Ok(());
    }
    if text_eq(line, "-") {
        let mut finished = CgrcConfItem::new();
        std::mem::swap(&mut finished, current_item);
        let ghost before = conf.items@;
        conf.items.push(finished);
        assert(models(conf.items@) =~= models(before).push(finished.model()));
    }
    Ok(())
}

/// Parses the lines of a rule-block file into a rule set.
pub fn parse_config(lines: &Vec<String>) -> (r: Result<CgrcConf, ConfigError>)
    ensures
        match parse_rules(line_texts(lines@)) {
            Err(k) => r matches Err(ConfigError::InvalidPattern { line: l, .. }) && l@ == trimmed(
                lines@[k]@,
            ),
            Ok(rules) => if rules.len() == 0 {
                r matches Err(ConfigError::EmptyRuleSet)
            } else {
                r matches Ok(conf) && models(conf.items@) == rules && all_parsed_wf(conf.items@)
                    && conf.description is None
            },
        },
{
    let ghost texts = line_texts(lines@);
    let mut conf = CgrcConf::new();
    let mut current_item = CgrcConfItem::new();
    let mut i: usize = 0;
    assert(texts.take(0) =~= Seq::<Seq<char>>::empty());
    assert(models(conf.items@) =~= Seq::<RuleModel>::empty());
    while i < lines.len()
        invariant
            i <= lines.len(),
            texts == line_texts(lines@),
            run(texts.take(i as int)) == Ok::<ParseState, int>(
                ParseState { done: models(conf.items@), current: current_item.model() },
            ),
            current_item.parsed_wf(),
            all_parsed_wf(conf.items@),
            conf.description is None,
        decreases lines.len() - i,
    {
        assert(texts.take(i + 1).drop_last() == texts.take(i as int));
        assert(texts.take(i + 1).last() == lines@[i as int]@);
        let line = trim(lines[i].as_str());
        match parse_config_line(line, &mut current_item, &mut conf) {
            Err(e) => {
                proof {
                    lemma_run_error_persists(texts, i + 1);
                }
                return Err(e);
            },
            Ok(()) => {},
        }
        i += 1;
    }
    assert(texts.take(lines.len() as int) == texts);
    if current_item.regex.is_some() {
        let ghost before = conf.items@;
        conf.items.push(current_item);
        assert(models(conf.items@) =~= models(before).push(current_item.model()));
    }
    if conf.items.len() == 0 {
        Err(ConfigError::EmptyRuleSet)
    } else {
        Ok(conf)
    }
}

/// The pattern texts of the rules that have one, in order.
pub open spec fn patterns_of(rules: Seq<RuleModel>) -> Seq<Seq<char>>
    decreases rules.len(),
{
    if rules.len() == 0 {
        Seq::empty()
    } else {
        patterns_of(rules.drop_last()) + pattern_seq(rules.last())
    }
}

pub open spec fn pattern_seq(rule: RuleModel) -> Seq<Seq<char>> {
    match rule.pattern {
        Some(p) => seq![p],
        None => Seq::empty(),
    }
}

/// The patterns of the file's `regexp=` lines, in the order they appear.
pub open spec fn declared_patterns(lines: Seq<Seq<char>>) -> Seq<Seq<char>>
    decreases lines.len(),
{
    if lines.len() == 0 {
        Seq::empty()
    } else {
        let line = trimmed(lines.last());
        declared_patterns(lines.drop_last()) + if has_prefix(line, "regexp="@) {
            seq![line.skip("regexp="@.len() as int)]
        } else {
            Seq::empty()
        }
    }
}

proof fn lemma_run_keeps_order(lines: Seq<Seq<char>>)
    ensures
        run(lines) matches Ok(st) ==> patterns_of(st.done) + pattern_seq(st.current)
            == declared_patterns(lines),
    decreases lines.len(),
{
    reveal_strlit("regexp=");
    reveal_strlit("colours=");
    reveal_strlit("skip=");
    reveal_strlit("-");
    if lines.len() > 0 {
        lemma_run_keeps_order(lines.drop_last());
        if let Ok(st) = run(lines.drop_last()) {
            let line = trimmed(lines.last());
            if let Some(next) = step(st, line) {
                if line.len() == 0 || line[0] == '#' {
                    assert(!has_prefix(line, "regexp="@)) by {
                        if line.len() >= 7 {
                            assert(line.take(7)[0] == line[0]);
                            assert("regexp="@[0] == 'r');
                        }
                    }
                    assert(declared_patterns(lines) =~= declared_patterns(lines.drop_last()));
                } else if has_prefix(line, "regexp="@) {
                    if st.current.pattern is Some {
                        assert(next.done.drop_last() == st.done);
                        assert(patterns_of(next.done) == patterns_of(st.done) + pattern_seq(st.current));
                    }
                    assert(patterns_of(next.done) + pattern_seq(next.current) =~= patterns_of(st.done)
                        + pattern_seq(st.current) + seq![line.skip(7)]);
                } else {
                    assert(declared_patterns(lines) =~= declared_patterns(lines.drop_last()));
                    if line == "-"@ {
                        assert(next.done.drop_last() == st.done);
                        assert(patterns_of(next.done) == patterns_of(st.done) + pattern_seq(st.current));
                        assert(pattern_seq(next.current) =~= Seq::<Seq<char>>::empty());
                        assert(patterns_of(next.done) + pattern_seq(next.current)
                            =~= patterns_of(next.done));
                    }
                }
            }
        }
    }
}

/// The rules of a file come out in the order of their `regexp=` lines.
pub proof fn lemma_rule_order(lines: Seq<Seq<char>>)
    ensures
        parse_rules(lines) matches Ok(rules) ==> patterns_of(rules) == declared_patterns(lines),
{
    lemma_run_keeps_order(lines);
    if let Ok(st) = run(lines) {
        if st.current.pattern is Some {
            assert(patterns_of(st.done.push(st.current)) == patterns_of(st.done) + pattern_seq(
                st.current,
            )) by {
                assert(st.done.push(st.current).drop_last() == st.done);
            }
        } else {
            assert(patterns_of(st.done) + pattern_seq(st.current) =~= patterns_of(st.done));
        }
    }
}

/// Colors resolved from the same name carry the same escape and clear sequences:
/// those of the name's foreground on the default background, without attributes.
pub proof fn lemma_color_resolution_is_pure(a: CgrcColorItem, b: CgrcColorItem, name: Seq<char>)
    requires
        is_parsed_color(a, forg_or_default(name)),
        is_parsed_color(b, forg_or_default(name)),
    ensures
        a.escape_seq@ == b.escape_seq@,
        a.clear_seq@ == b.clear_seq@,
        a.escape_seq@ == escape_text(
            Seq::empty(),
            forg_or_default(name),
            LcBackColor::LcBackColDefault,
        ),
        a.clear_seq@ == clear_text(Seq::empty()),
{
    assert(a.attrs@ =~= Seq::<CgrcAttrib>::empty());
    assert(a.attrs@ =~= b.attrs@);
}

} // verus!
