//! The rule engine's decisions: what a matching rule changes on a transaction, and the
//! structural limits an expression must meet before any parser is handed it.
//!
//! Whether a rule's expression matches a transaction is the expression evaluator's answer;
//! everything decided from that answer is here. A run makes one forward pass per transaction
//! in priority order, and each rule sees the state the previous rules left.

use vstd::prelude::*;

use crate::accounts::AccountKind;
use crate::error::{AppError, AppResult};
use crate::rules::{PreviewMatch, Rule, RulePreview};
use crate::text::{append_nat_decimal, int_decimal, trim, trimmed};
use vstd::string::StringSliceAdditionalSpecFns;

verus! {

/// Hard ceiling on an expression's size in bytes: the evaluator's parser recurses per nesting
/// level with no guard of its own.
pub const MAX_EXPRESSION_BYTES: usize = 16 * 1024;

/// Hard ceiling on bracket-nesting depth, checked before the parser sees the text.
pub const MAX_EXPRESSION_DEPTH: usize = 64;

/// One transaction as the rules see it.
#[derive(Debug, Clone)]
pub struct TxCtx {
    pub id: i64,
    pub account_id: i64,
    pub posted_at: String,
    pub amount_minor: i64,
    pub currency_code: String,
    pub decimal_places: i64,
    pub description: String,
    pub merchant: Option<String>,
    pub merchant_id: Option<i64>,
    pub notes: Option<String>,
    pub category_id: Option<i64>,
    pub is_one_off: bool,
    pub categorized_by_rule_id: Option<i64>,
    pub account_name: String,
    pub account_kind: AccountKind,
}

/// One change a run decided to make, with the values before and after.
#[derive(Debug, Clone, PartialEq, Eq)]
pub struct PlannedApplication {
    pub rule_id: i64,
    pub transaction_id: i64,
    pub prev_category_id: Option<i64>,
    pub new_category_id: Option<i64>,
    pub prev_categorized_by_rule_id: Option<i64>,
    pub new_categorized_by_rule_id: Option<i64>,
    pub prev_one_off: bool,
    pub new_one_off: bool,
    pub prev_merchant_id: Option<i64>,
    pub new_merchant_id: Option<i64>,
}

/// The per-transaction state a run updates as successive rules apply.
#[derive(Debug, Clone, Copy, PartialEq, Eq, Structural)]
pub struct Current {
    pub category_id: Option<i64>,
    pub categorized_by_rule_id: Option<i64>,
    pub is_one_off: bool,
    pub merchant_id: Option<i64>,
}

impl Current {
    /// The state a transaction starts a run in.
    pub fn of(row: &TxCtx) -> (c: Current)
        ensures
            c.category_id == row.category_id,
            c.categorized_by_rule_id == row.categorized_by_rule_id,
            c.is_one_off == row.is_one_off,
            c.merchant_id == row.merchant_id,
    {
        Current {
            category_id: row.category_id,
            categorized_by_rule_id: row.categorized_by_rule_id,
            is_one_off: row.is_one_off,
            merchant_id: row.merchant_id,
        }
    }
}

/// A category is manual when it is set, but not by a rule.
pub open spec fn is_manual(cur: Current) -> bool {
    cur.categorized_by_rule_id is None && cur.category_id is Some
}

/// Whether a matching rule moves the category: it sets one, the current one is not manual
/// (or the rule may overwrite manual ones), and it differs.
pub open spec fn moves_category(rule: Rule, cur: Current) -> bool {
    rule.set_category_id matches Some(t) && (!is_manual(cur) || rule.overwrite_manual)
        && cur.category_id != Some(t)
}

/// Whether a matching rule flips the one-off flag.
pub open spec fn moves_one_off(rule: Rule, cur: Current) -> bool {
    rule.set_one_off matches Some(v) && cur.is_one_off != v
}

/// Whether a matching rule moves the merchant.
pub open spec fn moves_merchant(rule: Rule, cur: Current) -> bool {
    rule.set_merchant_id matches Some(m) && cur.merchant_id != Some(m)
}

/// Whether a matching rule changes anything at all.
pub open spec fn changes_anything(rule: Rule, cur: Current) -> bool {
    moves_category(rule, cur) || moves_one_off(rule, cur) || moves_merchant(rule, cur)
}

/// The state after a matching rule applies.
pub open spec fn after_rule(rule: Rule, cur: Current) -> Current {
    Current {
        category_id: if moves_category(rule, cur) {
            rule.set_category_id
        } else {
            cur.category_id
        },
        categorized_by_rule_id: if moves_category(rule, cur) {
            Some(rule.id)
        } else {
            cur.categorized_by_rule_id
        },
        is_one_off: if moves_one_off(rule, cur) {
            rule.set_one_off->Some_0
        } else {
            cur.is_one_off
        },
        merchant_id: if moves_merchant(rule, cur) {
            rule.set_merchant_id
        } else {
            cur.merchant_id
        },
    }
}

/// The change a matching rule records on transaction `transaction_id` in state `cur`: the
/// state before and after, exactly.
pub open spec fn application_of(rule: Rule, transaction_id: i64, cur: Current) -> PlannedApplication {
    let next = after_rule(rule, cur);
    PlannedApplication {
        rule_id: rule.id,
        transaction_id,
        prev_category_id: cur.category_id,
        new_category_id: next.category_id,
        prev_categorized_by_rule_id: cur.categorized_by_rule_id,
        new_categorized_by_rule_id: next.categorized_by_rule_id,
        prev_one_off: cur.is_one_off,
        new_one_off: next.is_one_off,
        prev_merchant_id: cur.merchant_id,
        new_merchant_id: next.merchant_id,
    }
}

/// What one matching rule does to one transaction.
#[derive(Debug)]
pub struct RuleStep {
    /// The change to record, when the rule changed anything.
    pub application: Option<PlannedApplication>,
    /// The state the next rule sees.
    pub next: Current,
    /// Whether the rule ends this transaction's pass.
    pub stop: bool,
}

/// Apply a rule that matched transaction `transaction_id` in state `cur`.
///
/// A change is recorded only when something actually changes, and records the state before
/// and after exactly; a manual category is replaced only by a rule that may overwrite manual
/// ones; a category a rule sets is marked as set by that rule.
pub fn apply_rule(rule: &Rule, transaction_id: i64, cur: &Current) -> (r: RuleStep)
    ensures
        r.next == after_rule(*rule, *cur),
        r.stop == rule.stop_on_match,
        r.application is Some <==> changes_anything(*rule, *cur),
        r.application matches Some(a) ==> a == application_of(*rule, transaction_id, *cur),
{
    let manual = cur.categorized_by_rule_id.is_none() && cur.category_id.is_some();
    let mut new_category = cur.category_id;
    let mut cat_changed = false;
    if let Some(target) = rule.set_category_id {
        let differs = match cur.category_id {
            Some(c) => c != target,
            None => true,
        };
        if (!manual || rule.overwrite_manual) && differs {
            new_category = Some(target);
            cat_changed = true;
        }
    }
    let mut new_one_off = cur.is_one_off;
    let mut one_off_changed = false;
    if let Some(v) = rule.set_one_off {
        if cur.is_one_off != v {
            new_one_off = v;
            one_off_changed = true;
        }
    }
    let mut new_merchant = cur.merchant_id;
    let mut merchant_changed = false;
    if let Some(m) = rule.set_merchant_id {
        let differs = match cur.merchant_id {
            Some(c) => c != m,
            None => true,
        };
        if differs {
            new_merchant = Some(m);
            merchant_changed = true;
        }
    }
    let new_cat_by_rule = if cat_changed {
        Some(rule.id)
    } else {
        cur.categorized_by_rule_id
    };
    let next = Current {
        category_id: new_category,
        categorized_by_rule_id: new_cat_by_rule,
        is_one_off: new_one_off,
        merchant_id: new_merchant,
    };
    let application = if cat_changed || one_off_changed || merchant_changed {
        Some(
            PlannedApplication {
                rule_id: rule.id,
                transaction_id,
                prev_category_id: cur.category_id,
                new_category_id: new_category,
                prev_categorized_by_rule_id: cur.categorized_by_rule_id,
                new_categorized_by_rule_id: new_cat_by_rule,
                prev_one_off: cur.is_one_off,
                new_one_off,
                prev_merchant_id: cur.merchant_id,
                new_merchant_id: new_merchant,
            },
        )
    } else {
        None
    };
    RuleStep { application, next, stop: rule.stop_on_match }
}

/// A run's record so far: how many times a rule matched, and every change decided on, in
/// the order decided.
#[derive(Debug)]
pub struct RunPlan {
    pub matched: i64,
    pub applications: Vec<PlannedApplication>,
}

impl RunPlan {
    /// A run that has seen nothing yet.
    pub fn new() -> (p: RunPlan)
        ensures
            p.matched == 0,
            p.applications@.len() == 0,
    {
        RunPlan { matched: 0, applications: Vec::new() }
    }

    /// Take in whether `rule`'s expression matched transaction `transaction_id`, whose state is
    /// `*cur`. A match is counted, the change it makes (if any) is recorded, and `*cur` moves
    /// on to the state the next rule sees. Returns whether later rules still see this
    /// transaction: not after a match of a rule that stops on a match.
    pub fn observe(&mut self, rule: &Rule, transaction_id: i64, cur: &mut Current, matched: bool) -> (go_on: bool)
        requires
            old(self).matched < i64::MAX,
        ensures
            !matched ==> {
                &&& final(self).matched == old(self).matched
                &&& final(self).applications@ == old(self).applications@
                &&& *final(cur) == *old(cur)
                &&& go_on
            },
            matched ==> {
                &&& final(self).matched == old(self).matched + 1
                &&& *final(cur) == after_rule(*rule, *old(cur))
                &&& go_on == !rule.stop_on_match
                &&& final(self).applications@ == if changes_anything(*rule, *old(cur)) {
                    old(self).applications@.push(application_of(*rule, transaction_id, *old(cur)))
                } else {
                    old(self).applications@
                }
            },
    {
        if !matched {
            return true;
        }
        self.matched = self.matched + 1;
        let step = apply_rule(rule, transaction_id, cur);
        match step.application {
            Some(a) => self.applications.push(a),
            None => {},
        }
        *cur = step.next;
        !step.stop
    }
}

/// The state a transaction starts a run in, as [`Current::of`] reads it.
pub open spec fn current_of(row: TxCtx) -> Current {
    Current {
        category_id: row.category_id,
        categorized_by_rule_id: row.categorized_by_rule_id,
        is_one_off: row.is_one_off,
        merchant_id: row.merchant_id,
    }
}

/// The change a matching rule records, as a sequence of none or one.
pub open spec fn recorded(rule: Rule, transaction_id: i64, cur: Current) -> Seq<PlannedApplication> {
    if changes_anything(rule, cur) {
        seq![application_of(rule, transaction_id, cur)]
    } else {
        Seq::empty()
    }
}

/// `acc` followed by what `rest` counted and recorded, when `rest` is a run.
pub open spec fn then_run(acc: (int, Seq<PlannedApplication>), rest: Option<(int, Seq<PlannedApplication>)>) -> Option<(int, Seq<PlannedApplication>)> {
    match rest {
        Some(r) => Some((acc.0 + r.0, acc.1 + r.1)),
        None => None,
    }
}

/// One transaction's pass over `rules` from rule `j` on, in state `cur`, when the evaluator
/// `f` answered `answers` in turn: rules are taken in order; a disabled rule is passed over
/// without asking the evaluator; each answer must be one `f` can give for that rule, that row
/// and the state the earlier rules left; a match is counted and records what it changes; a
/// match of a rule that stops on a match ends the pass. `None` when the answers are not the
/// ones such a pass asks for. Row `i` is the transaction's place in the run.
pub open spec fn row_pass<F: Fn(usize, usize, Current) -> bool>(
    f: F,
    rules: Seq<Rule>,
    i: int,
    transaction_id: i64,
    cur: Current,
    j: int,
    answers: Seq<bool>,
) -> Option<(int, Seq<PlannedApplication>)>
    decreases rules.len() - j,
{
    if j < 0 || j >= rules.len() {
        if answers.len() == 0 {
            Some((0, Seq::empty()))
        } else {
            None
        }
    } else if !rules[j].enabled {
        row_pass(f, rules, i, transaction_id, cur, j + 1, answers)
    } else if answers.len() == 0 || !f.ensures((j as usize, i as usize, cur), answers[0]) {
        None
    } else if !answers[0] {
        row_pass(f, rules, i, transaction_id, cur, j + 1, answers.drop_first())
    } else if rules[j].stop_on_match {
        if answers.len() == 1 {
            Some((1, recorded(rules[j], transaction_id, cur)))
        } else {
            None
        }
    } else {
        then_run(
            (1, recorded(rules[j], transaction_id, cur)),
            row_pass(f, rules, i, transaction_id, after_rule(rules[j], cur), j + 1, answers.drop_first()),
        )
    }
}

/// A whole run: each transaction in order gets its own pass over the rules, starting from its
/// stored state, with `answers[i]` the evaluator's answers for transaction `i`; the matches
/// add up and the changes follow one another.
pub open spec fn run_pass<F: Fn(usize, usize, Current) -> bool>(
    f: F,
    rules: Seq<Rule>,
    rows: Seq<TxCtx>,
    answers: Seq<Seq<bool>>,
) -> Option<(int, Seq<PlannedApplication>)>
    decreases rows.len(),
{
    if rows.len() == 0 {
        if answers.len() == 0 {
            Some((0, Seq::empty()))
        } else {
            None
        }
    } else if answers.len() != rows.len() {
        None
    } else {
        let n = rows.len() - 1;
        match run_pass(f, rules, rows.drop_last(), answers.drop_last()) {
            Some(p) => then_run(p, row_pass(f, rules, n, rows[n].id, current_of(rows[n]), 0, answers[n])),
            None => None,
        }
    }
}

/// Whether some enabled rule of `rules` has id `id`.
pub open spec fn enabled_rule_id(rules: Seq<Rule>, id: i64) -> bool {
    exists|j: int| 0 <= j < rules.len() && rules[j].enabled && #[trigger] rules[j].id == id
}

/// Whether every change in `apps` comes from an enabled rule of `rules`.
pub open spec fn all_from_enabled(rules: Seq<Rule>, apps: Seq<PlannedApplication>) -> bool {
    forall|k: int| 0 <= k < apps.len() ==> enabled_rule_id(rules, #[trigger] apps[k].rule_id)
}

proof fn lemma_concat_from_enabled(rules: Seq<Rule>, a: Seq<PlannedApplication>, b: Seq<PlannedApplication>)
    requires
        all_from_enabled(rules, a),
        all_from_enabled(rules, b),
    ensures
        all_from_enabled(rules, a + b),
{
    assert forall|k: int| 0 <= k < (a + b).len() implies enabled_rule_id(rules, #[trigger] (a + b)[k].rule_id) by {
        if k < a.len() {
            assert((a + b)[k] == a[k]);
        } else {
            assert((a + b)[k] == b[k - a.len()]);
        }
    }
}

proof fn lemma_row_from_enabled<F: Fn(usize, usize, Current) -> bool>(
    f: F,
    rules: Seq<Rule>,
    i: int,
    transaction_id: i64,
    cur: Current,
    j: int,
    answers: Seq<bool>,
)
    ensures
        row_pass(f, rules, i, transaction_id, cur, j, answers) matches Some(r) ==> all_from_enabled(rules, r.1),
    decreases rules.len() - j,
{
    if j < 0 || j >= rules.len() {
    } else if !rules[j].enabled {
        lemma_row_from_enabled(f, rules, i, transaction_id, cur, j + 1, answers);
    } else if answers.len() == 0 || !f.ensures((j as usize, i as usize, cur), answers[0]) {
    } else {
        let here = recorded(rules[j], transaction_id, cur);
        assert(all_from_enabled(rules, here)) by {
            if here.len() > 0 {
                assert(here[0].rule_id == rules[j].id);
                assert(enabled_rule_id(rules, here[0].rule_id));
            }
        }
        lemma_row_from_enabled(f, rules, i, transaction_id, cur, j + 1, answers.drop_first());
        lemma_row_from_enabled(f, rules, i, transaction_id, after_rule(rules[j], cur), j + 1, answers.drop_first());
        if let Some(r) = row_pass(f, rules, i, transaction_id, after_rule(rules[j], cur), j + 1, answers.drop_first()) {
            lemma_concat_from_enabled(rules, here, r.1);
        }
    }
}

/// A disabled rule never applies: every change a run records was made by an enabled rule,
/// whatever the evaluator answered.
pub proof fn lemma_disabled_rules_never_apply<F: Fn(usize, usize, Current) -> bool>(
    f: F,
    rules: Seq<Rule>,
    rows: Seq<TxCtx>,
    answers: Seq<Seq<bool>>,
)
    ensures
        run_pass(f, rules, rows, answers) matches Some(p) ==> all_from_enabled(rules, p.1),
    decreases rows.len(),
{
    if rows.len() > 0 && answers.len() == rows.len() {
        let n = rows.len() - 1;
        lemma_disabled_rules_never_apply(f, rules, rows.drop_last(), answers.drop_last());
        lemma_row_from_enabled(f, rules, n, rows[n].id, current_of(rows[n]), 0, answers[n]);
        if let Some(p) = run_pass(f, rules, rows.drop_last(), answers.drop_last()) {
            if let Some(q) = row_pass(f, rules, n, rows[n].id, current_of(rows[n]), 0, answers[n]) {
                lemma_concat_from_enabled(rules, p.1, q.1);
            }
        }
    }
}

/// Plan a run of `rules` over `rows`, asking `matches(j, i, state)` whether rule `j` matches
/// row `i` in the state the earlier rules left it in. Each row, in order, gets one forward
/// pass over the rules in order; a disabled rule is never asked about and never applies; a
/// match of a rule that stops on a match ends the row's pass. Returns the number of matches
/// and every change decided, in order: exactly [`run_pass`] for the answers the evaluator gave.
pub fn plan_run<F: Fn(usize, usize, Current) -> bool>(rules: &[Rule], rows: &[TxCtx], matches: F) -> (r: (
    i64,
    Vec<PlannedApplication>,
))
    requires
        rows@.len() * rules@.len() < i64::MAX,
        forall|j: usize, i: usize, c: Current| #[trigger] matches.requires((j, i, c)),
    ensures
        exists|answers: Seq<Seq<bool>>|
            #[trigger] run_pass(matches, rules@, rows@, answers) == Some((r.0 as int, r.1@)),
{
    let mut plan = RunPlan::new();
    let ghost mut answers: Seq<Seq<bool>> = Seq::empty();
    let mut i: usize = 0;
    while i < rows.len()
        invariant
            0 <= i <= rows@.len(),
            rows@.len() * rules@.len() < i64::MAX,
            forall|j: usize, i: usize, c: Current| #[trigger] matches.requires((j, i, c)),
            0 <= plan.matched <= i * rules@.len(),
            answers.len() == i,
            run_pass(matches, rules@, rows@.take(i as int), answers) == Some(
                (plan.matched as int, plan.applications@),
            ),
        decreases rows@.len() - i,
    {
        let row = &rows[i];
        let mut cur = Current::of(row);
        let ghost cur0 = cur;
        let ghost start = (plan.matched as int, plan.applications@);
        let ghost mut asked: Seq<bool> = Seq::empty();
        let ghost mut row_acc: (int, Seq<PlannedApplication>) = (0, Seq::empty());
        proof {
            assert(i * rules@.len() + rules@.len() <= rows@.len() * rules@.len()) by (nonlinear_arith)
                requires
                    i < rows@.len(),
            ;
            assert forall|rest: Seq<bool>|
                row_pass(matches, rules@, i as int, row.id, cur0, 0, asked + rest) == then_run(
                    row_acc,
                    #[trigger] row_pass(matches, rules@, i as int, row.id, cur, 0, rest),
                ) by {
                assert(asked + rest =~= rest);
                let x = row_pass(matches, rules@, i as int, row.id, cur, 0, rest);
                if let Some(r) = x {
                    assert(row_acc.1 + r.1 =~= r.1);
                }
            }
            assert(plan.applications@ =~= start.1 + row_acc.1);
        }
        let mut j: usize = 0;
        loop
            invariant_except_break
                0 <= j <= rules@.len(),
                forall|rest: Seq<bool>|
                    row_pass(matches, rules@, i as int, row.id, cur0, 0, asked + rest) == then_run(
                        row_acc,
                        #[trigger] row_pass(matches, rules@, i as int, row.id, cur, j as int, rest),
                    ),
                0 <= row_acc.0 <= j,
            invariant
                0 <= i < rows@.len(),
                row == rows@[i as int],
                i * rules@.len() + rules@.len() < i64::MAX,
                forall|j: usize, i: usize, c: Current| #[trigger] matches.requires((j, i, c)),
                0 <= start.0 <= i * rules@.len(),
                plan.matched == start.0 + row_acc.0,
                plan.applications@ == start.1 + row_acc.1,
            ensures
                row_pass(matches, rules@, i as int, row.id, cur0, 0, asked) == Some(row_acc),
                0 <= row_acc.0 <= rules@.len(),
            decreases rules@.len() - j,
        {
            let ghost cur_b = cur;
            let ghost asked_b = asked;
            let ghost acc_b = row_acc;
            let ghost apps_b = plan.applications@;
            assert(forall|rest: Seq<bool>|
                row_pass(matches, rules@, i as int, row.id, cur0, 0, asked_b + rest) == then_run(
                    acc_b,
                    #[trigger] row_pass(matches, rules@, i as int, row.id, cur_b, j as int, rest),
                ));
            if j >= rules.len() {
                proof {
                    let e = Seq::<bool>::empty();
                    assert(asked + e =~= asked);
                    assert(row_pass(matches, rules@, i as int, row.id, cur, j as int, e) == Some(
                        (0int, Seq::<PlannedApplication>::empty()),
                    ));
                    assert(row_acc.1 + Seq::<PlannedApplication>::empty() =~= row_acc.1);
                }
                break;
            }
            let rule = &rules[j];
            if !rule.enabled {
                j = j + 1;
                proof {
                    assert forall|rest: Seq<bool>|
                        row_pass(matches, rules@, i as int, row.id, cur0, 0, asked + rest) == then_run(
                            row_acc,
                            #[trigger] row_pass(matches, rules@, i as int, row.id, cur, j as int, rest),
                        ) by {
                        assert(row_pass(matches, rules@, i as int, row.id, cur_b, j - 1, rest)
                            == row_pass(matches, rules@, i as int, row.id, cur, j as int, rest));
                    }
                }
                continue;
            }
            let m = matches(j, i, cur);
            let go_on = plan.observe(rule, row.id, &mut cur, m);
            proof {
                let here: (int, Seq<PlannedApplication>) = if m {
                    (1, recorded(*rule, row.id, cur_b))
                } else {
                    (0, Seq::empty())
                };
                asked = asked.push(m);
                row_acc = (acc_b.0 + here.0, acc_b.1 + here.1);
                if m {
                    assert(plan.applications@ =~= start.1 + row_acc.1);
                } else {
                    assert(row_acc.1 =~= acc_b.1);
                }
                assert forall|rest: Seq<bool>|
                    row_pass(matches, rules@, i as int, row.id, cur0, 0, asked + rest) == then_run(
                        acc_b,
                        row_pass(matches, rules@, i as int, row.id, cur_b, j as int, seq![m] + rest),
                    ) by {
                    assert(asked + rest =~= asked_b + (seq![m] + rest));
                    assert(row_pass(matches, rules@, i as int, row.id, cur_b, j as int, seq![m] + rest)
                        == row_pass(matches, rules@, i as int, row.id, cur_b, j as int, seq![m] + rest));
                }
                assert forall|rest: Seq<bool>|
                    (#[trigger] (seq![m] + rest)).drop_first() == rest && (seq![m] + rest)[0] == m && (
                    seq![m] + rest).len() == rest.len() + 1 by {
                    assert((seq![m] + rest).drop_first() =~= rest);
                }
            }
            if !go_on {
                proof {
                    let e = Seq::<bool>::empty();
                    assert(asked + e =~= asked);
                    assert(seq![m] + e =~= seq![m]);
                    assert(seq![m].drop_first() =~= e);
                }
                break;
            }
            j = j + 1;
            proof {
                assert forall|rest: Seq<bool>|
                    row_pass(matches, rules@, i as int, row.id, cur0, 0, asked + rest) == then_run(
                        row_acc,
                        #[trigger] row_pass(matches, rules@, i as int, row.id, cur, j as int, rest),
                    ) by {
                    assert((seq![m] + rest).drop_first() =~= rest);
                    let x = row_pass(matches, rules@, i as int, row.id, cur, j as int, rest);
                    if let Some(r) = x {
                        assert((acc_b.1 + recorded(*rule, row.id, cur_b)) + r.1 =~= acc_b.1 + (recorded(
                            *rule,
                            row.id,
                            cur_b,
                        ) + r.1));
                        assert(acc_b.1 + Seq::<PlannedApplication>::empty() =~= acc_b.1);
                    }
                }
            }
        }
        proof {
            let next = answers.push(asked);
            assert(rows@.take(i + 1).drop_last() =~= rows@.take(i as int));
            assert(next.drop_last() =~= answers);
            assert(rows@.take(i + 1)[i as int] == rows@[i as int]);
            assert(start.1 + row_acc.1 =~= plan.applications@);
            assert(i * rules@.len() + rules@.len() == (i + 1) * rules@.len()) by (nonlinear_arith);
            answers = next;
        }
        i = i + 1;
    }
    proof {
        assert(rows@.take(i as int) =~= rows@);
    }
    (plan.matched, plan.applications)
}

/// The automatic run over newly arrived transactions: planned as [`plan_run`] plans it, and
/// `None` when it would change nothing, so no empty run is recorded; otherwise the run to
/// record, its match count and its changes.
pub fn plan_new_run<F: Fn(usize, usize, Current) -> bool>(rules: &[Rule], rows: &[TxCtx], matches: F) -> (r:
    Option<(i64, Vec<PlannedApplication>)>)
    requires
        rows@.len() * rules@.len() < i64::MAX,
        forall|j: usize, i: usize, c: Current| #[trigger] matches.requires((j, i, c)),
    ensures
        exists|answers: Seq<Seq<bool>>|
            #[trigger] run_pass(matches, rules@, rows@, answers) matches Some(p) && (p.1.len() == 0
                ==> r is None) && (p.1.len() > 0 ==> (r matches Some(q) && q.0 == p.0 && q.1@
                == p.1)),
{
    let (matched, applications) = plan_run(rules, rows, matches);
    let ghost w = choose|answers: Seq<Seq<bool>>|
        #[trigger] run_pass(matches, rules@, rows@, answers) == Some((matched as int, applications@));
    if applications.len() == 0 {
        assert(run_pass(matches, rules@, rows@, w) == Some((matched as int, applications@)));
        None
    } else {
        assert(run_pass(matches, rules@, rows@, w) == Some((matched as int, applications@)));
        Some((matched, applications))
    }
}

/// How many matching transactions a preview lists: the requested number, 25 when none is
/// asked for, kept within 1 to 500.
pub open spec fn preview_size(requested: Option<i64>) -> int {
    match requested {
        None => 25,
        Some(n) => if n < 1 {
            1
        } else if n > 500 {
            500
        } else {
            n as int
        },
    }
}

/// How many matches a preview lists; see [`preview_size`].
pub fn preview_limit(requested: Option<i64>) -> (n: usize)
    ensures
        n == preview_size(requested),
{
    match requested {
        None => 25,
        Some(n) => if n < 1 {
            1
        } else if n > 500 {
            500
        } else {
            n as usize
        },
    }
}

impl RulePreview {
    /// A preview that has seen nothing yet.
    pub fn empty() -> (p: RulePreview)
        ensures
            p.matched == 0,
            p.sample@.len() == 0,
    {
        RulePreview { matched: 0, sample: Vec::new() }
    }

    /// Take in whether the expression matched `row`: every match is counted, and the first
    /// `limit` matches are listed.
    pub fn observe(&mut self, row: &TxCtx, matched: bool, limit: usize)
        requires
            old(self).matched < i64::MAX,
        ensures
            final(self).matched == old(self).matched + (if matched {
                1int
            } else {
                0
            }),
            final(self).sample@.len() == old(self).sample@.len() + (if matched
                && old(self).sample@.len() < limit {
                1int
            } else {
                0
            }),
            forall|i: int|
                0 <= i < old(self).sample@.len() ==> #[trigger] final(self).sample@[i] == old(
                    self,
                ).sample@[i],
            matched && old(self).sample@.len() < limit ==> ({
                let added = final(self).sample@[old(self).sample@.len() as int];
                &&& added.transaction_id == row.id
                &&& added.posted_at@ == row.posted_at@
                &&& added.description@ == row.description@
                &&& added.amount_minor == row.amount_minor
                &&& added.currency_code@ == row.currency_code@
                &&& added.category_id == row.category_id
            }),
    {
        if !matched {
            return;
        }
        self.matched = self.matched + 1;
        if self.sample.len() < limit {
            self.sample.push(
                PreviewMatch {
                    transaction_id: row.id,
                    posted_at: row.posted_at.clone(),
                    description: row.description.clone(),
                    amount_minor: row.amount_minor,
                    currency_code: row.currency_code.clone(),
                    category_id: row.category_id,
                },
            );
        }
    }
}

/// A manual category survives every rule that may not overwrite manual ones, and a rule
/// that changes nothing leaves the state exactly as it was.
pub proof fn lemma_manual_category_protected(rule: Rule, cur: Current)
    ensures
        is_manual(cur) && !rule.overwrite_manual ==> after_rule(rule, cur).category_id
            == cur.category_id && after_rule(rule, cur).categorized_by_rule_id
            == cur.categorized_by_rule_id,
        !changes_anything(rule, cur) ==> after_rule(rule, cur) == cur,
{
}

/// Once a rule has set what it sets, applying the same rule again changes nothing: a second
/// run over the same rules records no further change for it.
pub proof fn lemma_rule_application_settles(rule: Rule, cur: Current)
    ensures
        !changes_anything(rule, after_rule(rule, cur)),
{
}

/// A matching rule sets exactly what it names and leaves the rest alone: a merchant or a
/// one-off flag it names is what the transaction then holds, whatever it held before; a
/// category it names replaces any category that is not manual (set, but not by a rule), and a
/// manual one only when the rule may overwrite manual ones, and the rule is then recorded as
/// what categorised it; whatever it does not name keeps its value. The rule records a change
/// exactly when the state moved, and the change holds the state before and after.
pub proof fn lemma_rule_sets_what_it_names(rule: Rule, transaction_id: i64, cur: Current)
    ensures
        rule.set_merchant_id matches Some(m) ==> after_rule(rule, cur).merchant_id == Some(m),
        rule.set_merchant_id is None ==> after_rule(rule, cur).merchant_id == cur.merchant_id,
        rule.set_one_off matches Some(v) ==> after_rule(rule, cur).is_one_off == v,
        rule.set_one_off is None ==> after_rule(rule, cur).is_one_off == cur.is_one_off,
        rule.set_category_id matches Some(c) ==> ((cur.categorized_by_rule_id is Some
            || cur.category_id is None || rule.overwrite_manual) ==> after_rule(rule, cur).category_id
            == Some(c)),
        rule.set_category_id is None ==> after_rule(rule, cur).category_id == cur.category_id
            && after_rule(rule, cur).categorized_by_rule_id == cur.categorized_by_rule_id,
        cur.categorized_by_rule_id is None && cur.category_id is Some && !rule.overwrite_manual
            ==> after_rule(rule, cur).category_id == cur.category_id && after_rule(
            rule,
            cur,
        ).categorized_by_rule_id is None,
        after_rule(rule, cur).category_id != cur.category_id ==> after_rule(
            rule,
            cur,
        ).categorized_by_rule_id == Some(rule.id),
        after_rule(rule, cur).category_id == cur.category_id ==> after_rule(
            rule,
            cur,
        ).categorized_by_rule_id == cur.categorized_by_rule_id,
        changes_anything(rule, cur) <==> after_rule(rule, cur) != cur,
        ({
            let a = application_of(rule, transaction_id, cur);
            let next = after_rule(rule, cur);
            &&& a.rule_id == rule.id && a.transaction_id == transaction_id
            &&& a.prev_category_id == cur.category_id && a.new_category_id == next.category_id
            &&& a.prev_categorized_by_rule_id == cur.categorized_by_rule_id
            &&& a.new_categorized_by_rule_id == next.categorized_by_rule_id
            &&& a.prev_one_off == cur.is_one_off && a.new_one_off == next.is_one_off
            &&& a.prev_merchant_id == cur.merchant_id && a.new_merchant_id == next.merchant_id
        }),
{
}

/// Whether a byte opens a bracket: `(`, `[` or `{`.
pub open spec fn opens(b: u8) -> bool {
    b == 40 || b == 91 || b == 123
}

/// Whether a byte closes a bracket: `)`, `]` or `}`.
pub open spec fn closes(b: u8) -> bool {
    b == 41 || b == 93 || b == 125
}

/// The open-bracket depth after scanning `bytes`, and the deepest it reached. A closer with
/// nothing open leaves the depth at zero.
pub open spec fn bracket_scan(bytes: Seq<u8>) -> (int, int)
    decreases bytes.len(),
{
    if bytes.len() == 0 {
        (0, 0)
    } else {
        let prev = bracket_scan(bytes.drop_last());
        let b = bytes.last();
        if opens(b) {
            (prev.0 + 1, if prev.1 >= prev.0 + 1 {
                prev.1
            } else {
                prev.0 + 1
            })
        } else if closes(b) {
            (if prev.0 > 0 {
                prev.0 - 1
            } else {
                0
            }, prev.1)
        } else {
            prev
        }
    }
}

proof fn lemma_scan_bounds(bytes: Seq<u8>)
    ensures
        0 <= bracket_scan(bytes).0 <= bracket_scan(bytes).1 <= bytes.len(),
    decreases bytes.len(),
{
    if bytes.len() > 0 {
        lemma_scan_bounds(bytes.drop_last());
    }
}

/// The deepest run of unclosed brackets in `expression`, counted in one pass over its bytes.
/// Brackets inside string literals count too: a deliberate over-approximation.
pub fn max_bracket_depth(expression: &str) -> (r: usize)
    ensures
        r == bracket_scan(expression.spec_bytes()).1,
{
    let bytes = expression.as_bytes();
    let mut depth: usize = 0;
    let mut deepest: usize = 0;
    let mut i: usize = 0;
    while i < bytes.len()
        invariant
            bytes@ == expression.spec_bytes(),
            i <= bytes@.len(),
            (depth as int, deepest as int) == bracket_scan(bytes@.subrange(0, i as int)),
        decreases bytes@.len() - i,
    {
        proof {
            let next = bytes@.subrange(0, i + 1);
            assert(next.drop_last() =~= bytes@.subrange(0, i as int));
            assert(next.last() == bytes@[i as int]);
            lemma_scan_bounds(bytes@.subrange(0, i as int));
        }
        let b = bytes[i];
        if b == 40u8 || b == 91u8 || b == 123u8 {
            depth = depth + 1;
            if depth > deepest {
                deepest = depth;
            }
        } else if b == 41u8 || b == 93u8 || b == 125u8 {
            if depth > 0 {
                depth = depth - 1;
            }
        }
        i = i + 1;
    }
    proof {
        assert(bytes@.subrange(0, i as int) =~= bytes@);
    }
    deepest
}

/// What the structural checks on an expression say, in the order they are made: blank, then
/// too many bytes, then nested too deep.
pub open spec fn expression_limits(expression: &str) -> Option<Seq<char>> {
    if trimmed(expression@).len() == 0 {
        Some("expression is required"@)
    } else if expression.spec_bytes().len() > MAX_EXPRESSION_BYTES {
        Some(
            "expression is too long ("@ + int_decimal(expression.spec_bytes().len() as int)
                + " bytes, limit 16384)"@,
        )
    } else if bracket_scan(expression.spec_bytes()).1 > MAX_EXPRESSION_DEPTH {
        Some(
            "expression nesting is too deep ("@ + int_decimal(
                bracket_scan(expression.spec_bytes()).1,
            ) + " levels, limit 64)"@,
        )
    } else {
        None
    }
}

/// The structural limits an expression must meet before the evaluator parses it; past them
/// the parser does not return an error, it exhausts the stack.
pub fn check_expression_limits(expression: &str) -> (r: AppResult<()>)
    ensures
        match expression_limits(expression) {
            None => r is Ok,
            Some(msg) => r matches Err(AppError::Validation(m)) && m@ == msg,
        },
{
    let t = trim(expression);
    if t.as_str().unicode_len() == 0 {
        return Err(AppError::validation(String::from_str("expression is required")));
    }
    let len = expression.as_bytes().len();
    if len > MAX_EXPRESSION_BYTES {
        let mut m = String::from_str("expression is too long (");
        append_nat_decimal(&mut m, len as u64);
        m.append(" bytes, limit 16384)");
        return Err(AppError::validation(m));
    }
    let depth = max_bracket_depth(expression);
    if depth > MAX_EXPRESSION_DEPTH {
        let mut m = String::from_str("expression nesting is too deep (");
        append_nat_decimal(&mut m, depth as u64);
        m.append(" levels, limit 64)");
        return Err(AppError::validation(m));
    }
    Ok(())
}

/// The checks on a rule body that need no evaluator: a name, then the expression's
/// structural limits.
pub fn check_rule(name: &str, expression: &str) -> (r: AppResult<()>)
    ensures
        trimmed(name@).len() == 0 ==> (r matches Err(AppError::Validation(m)) && m@
            == "rule name is required"@),
        trimmed(name@).len() != 0 ==> match expression_limits(expression) {
            None => r is Ok,
            Some(msg) => r matches Err(AppError::Validation(m)) && m@ == msg,
        },
{
    let t = trim(name);
    if t.as_str().unicode_len() == 0 {
        return Err(AppError::validation(String::from_str("rule name is required")));
    }
    check_expression_limits(expression)
}

} // verus!
