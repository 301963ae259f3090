//! Colors one line with a rule set.

use vstd::prelude::*;
use crate::color_item::CgrcColorItem;
use crate::pattern::{captured_groups, find_groups, group_texts};
use crate::rules::{CgrcConf, CgrcConfItem};

verus! {

/// `s` with every occurrence of `from`, found from left to right without overlap,
/// replaced by `to`.
pub open spec fn replace_all(s: Seq<char>, from: Seq<char>, to: Seq<char>) -> Seq<char>
    decreases s.len(),
{
    if from.len() == 0 || s.len() < from.len() {
        s
    } else if s.take(from.len() as int) == from {
        to + replace_all(s.skip(from.len() as int), from, to)
    } else {
        seq![s[0]] + replace_all(s.drop_first(), from, to)
    }
}

/// Relies on str::replace: it replaces the non-overlapping occurrences of `from`,
/// found from left to right, by `to`.
#[verifier::external_body]
fn replace_text(s: &str, from: &str, to: &str) -> (r: String)
    requires
        from@.len() > 0,
    ensures
        r@ == replace_all(s@, from@, to@),
{
    s.replace(from, to)
}

/// The color of group `i`: its own slot, or slot 0 past the end of the list.
pub open spec fn color_for(colors: Seq<CgrcColorItem>, i: int) -> CgrcColorItem {
    if 0 <= i < colors.len() {
        colors[i]
    } else {
        colors[0]
    }
}

/// `t` wrapped in the escape and clear sequences of `c`.
pub open spec fn painted(c: CgrcColorItem, t: Seq<char>) -> Seq<char> {
    c.escape_seq@ + t + c.clear_seq@
}

/// `result` after each non-empty captured text, group by group, has been replaced
/// everywhere by its colored form. A rule without colors changes nothing.
pub open spec fn paint(
    result: Seq<char>,
    groups: Seq<Option<Seq<char>>>,
    colors: Seq<CgrcColorItem>,
) -> Seq<char>
    decreases groups.len(),
{
    if groups.len() == 0 {
        result
    } else {
        let r = paint(result, groups.drop_last(), colors);
        match groups.last() {
            Some(t) => if t.len() > 0 && colors.len() > 0 {
                replace_all(r, t, painted(color_for(colors, groups.len() - 1), t))
            } else {
                r
            },
            None => r,
        }
    }
}

/// Whether `item` has a pattern that matches `line`.
pub open spec fn rule_matches(item: CgrcConfItem, line: Seq<char>) -> bool {
    match item.pattern_text() {
        Some(p) => captured_groups(p, line) is Some,
        None => false,
    }
}

/// Whether `item` matches `line` and ends the search there.
pub open spec fn rule_stops(item: CgrcConfItem, line: Seq<char>) -> bool {
    rule_matches(item, line) && item.skip == Some(true)
}

/// The rules applied in order to `result`, each matched against the unmodified `line`.
pub open spec fn apply_rules(items: Seq<CgrcConfItem>, line: Seq<char>, result: Seq<char>) -> Seq<char>
    decreases items.len(),
{
    if items.len() == 0 {
        result
    } else {
        let item = items[0];
        let rest = items.drop_first();
        match item.pattern_text() {
            None => apply_rules(rest, line, result),
            Some(p) => match captured_groups(p, line) {
                None => apply_rules(rest, line, result),
                Some(g) => {
                    let next = paint(result, g, item.colors@);
                    if item.skip == Some(true) {
                        next
                    } else {
                        apply_rules(rest, line, next)
                    }
                },
            },
        }
    }
}

/// The color for capture group `i`, falling back to the first when the list is shorter.
pub fn pick_color(colors: &Vec<CgrcColorItem>, i: usize) -> (r: &CgrcColorItem)
    requires
        colors@.len() > 0,
    ensures
        i < colors@.len() ==> *r == colors@[i as int],
        i >= colors@.len() ==> *r == colors@[0],
        *r == color_for(colors@, i as int),
{
    if i < colors.len() {
        &colors[i]
    } else {
        &colors[0]
    }
}

/// Colors the captured groups of one match in `line`.
pub fn apply_colors(line: &str, groups: &Vec<Option<String>>, colors: &Vec<CgrcColorItem>) -> (r:
    String)
    ensures
        r@ == paint(line@, group_texts(groups@), colors@),
{
    let ghost texts = group_texts(groups@);
    let mut result = String::from_str(line);
    let mut i: usize = 0;
    assert(texts.take(0) =~= Seq::<Option<Seq<char>>>::empty());
    while i < groups.len()
        invariant
            i <= groups.len(),
            texts == group_texts(groups@),
            result@ == paint(line@, texts.take(i as int), colors@),
        decreases groups.len() - i,
    {
        assert(texts.take(i + 1).drop_last() == texts.take(i as int));
        assert(texts.take(i + 1).last() == texts[i as int]);
        match &groups[i] {
            Some(t) => {
                if t.as_str().unicode_len() > 0 && colors.len() > 0 {
                    let c = pick_color(colors, i);
                    let mut colored = String::from_str(c.escape_seq.as_str());
                    colored.append(t.as_str());
                    colored.append(c.clear_seq.as_str());
                    result = replace_text(result.as_str(), t.as_str(), colored.as_str());
                }
            },
            None => {},
        }
        i += 1;
    }
    assert(texts.take(groups.len() as int) == texts);
    result
}

/// Colors one line with every rule of `conf`, in order, until a matching rule says to stop.
pub fn process_line(conf: &CgrcConf, line: &str) -> (r: String)
    ensures
        r@ == apply_rules(conf.items@, line@, line@),
{
    let items = &conf.items;
    let mut result = String::from_str(line);
    let mut k: usize = 0;
    assert(items@.skip(0) == items@);
    while k < items.len()
        invariant
            k <= items@.len(),
            items@ == conf.items@,
            apply_rules(items@.skip(k as int), line@, result@) == apply_rules(items@, line@, line@),
        decreases items.len() - k,
    {
        let item = &items[k];
        assert(items@.skip(k as int)[0] == items@[k as int]);
        assert(items@.skip(k as int).drop_first() == items@.skip(k + 1));
        match &item.regex {
            None => {},
            Some(p) => match find_groups(p, line) {
                None => {},
                Some(groups) => {
                    result = apply_colors(result.as_str(), &groups, &item.colors);
                    if item.skip == Some(true) {
                        return result;
                    }
                },
            },
        }
        k += 1;
    }
    assert(items@.skip(items.len() as int) =~= Seq::<CgrcConfItem>::empty());
    result
}

/// A line that no rule matches comes out unchanged.
pub proof fn lemma_unmatched_line_unchanged(items: Seq<CgrcConfItem>, line: Seq<char>, result: Seq<char>)
    requires
        forall|k: int| 0 <= k < items.len() ==> !rule_matches(#[trigger] items[k], line),
    ensures
        apply_rules(items, line, result) == result,
    decreases items.len(),
{
    if items.len() > 0 {
        assert(!rule_matches(items[0], line));
        let rest = items.drop_first();
        assert forall|k: int| 0 <= k < rest.len() implies !rule_matches(#[trigger] rest[k], line) by {
            assert(rest[k] == items[k + 1]);
        }
        lemma_unmatched_line_unchanged(rest, line, result);
    }
}

/// Once a rule that stops on a match has matched, no later rule affects the line.
pub proof fn lemma_stop_on_match(items: Seq<CgrcConfItem>, line: Seq<char>, result: Seq<char>, k: int)
    requires
        0 <= k < items.len(),
        rule_stops(items[k], line),
    ensures
        apply_rules(items, line, result) == apply_rules(items.take(k + 1), line, result),
    decreases k,
{
    let short = items.take(k + 1);
    assert(short[0] == items[0]);
    if k > 0 {
        assert(short.drop_first() == items.drop_first().take(k));
        assert(items.drop_first()[k - 1] == items[k]);
        match items[0].pattern_text() {
            None => {
                lemma_stop_on_match(items.drop_first(), line, result, k - 1);
            },
            Some(p) => match captured_groups(p, line) {
                None => {
                    lemma_stop_on_match(items.drop_first(), line, result, k - 1);
                },
                Some(g) => {
                    lemma_stop_on_match(
                        items.drop_first(),
                        line,
                        paint(result, g, items[0].colors@),
                        k - 1,
                    );
                },
            },
        }
    }
}

/// Rules that do not stop the search hand their result on: the rules after them
/// still apply to the same line.
pub proof fn lemma_rules_compose(
    first: Seq<CgrcConfItem>,
    later: Seq<CgrcConfItem>,
    line: Seq<char>,
    result: Seq<char>,
)
    requires
        forall|k: int| 0 <= k < first.len() ==> !rule_stops(#[trigger] first[k], line),
    ensures
        apply_rules(first + later, line, result) == apply_rules(
            later,
            line,
            apply_rules(first, line, result),
        ),
    decreases first.len(),
{
    if first.len() == 0 {
        assert(first + later == later);
    } else {
        let rest = first.drop_first();
        assert((first + later)[0] == first[0]);
        assert((first + later).drop_first() == rest + later);
        assert(!rule_stops(first[0], line));
        assert forall|k: int| 0 <= k < rest.len() implies !rule_stops(#[trigger] rest[k], line) by {
            assert(rest[k] == first[k + 1]);
        }
        match first[0].pattern_text() {
            None => {
                lemma_rules_compose(rest, later, line, result);
            },
            Some(p) => match captured_groups(p, line) {
                None => {
                    lemma_rules_compose(rest, later, line, result);
                },
                Some(g) => {
                    lemma_rules_compose(rest, later, line, paint(result, g, first[0].colors@));
                },
            },
        }
    }
}

} // verus!
