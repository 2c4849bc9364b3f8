//! Editing the device rules. Each rule has an identity that travels with it, so that a rule that
//! was moved keeps its own controls.
use crate::config;
use crate::config::{Config, DeviceRuleKind, Profile, MAX_DEVICE_RULES};
use crate::model;
use crate::model::ConfigModel;
use crate::text;
use vstd::prelude::*;
use vstd::string::*;

verus! {

/// The identities of the rules that are shown.
pub struct RuleIds {
    pub rows: Vec<u64>,
    /// The next identity that was never given out.
    pub next: u64,
}

/// A rearrangement of the rules.
#[derive(Clone, Copy, Debug, PartialEq, Eq, Structural)]
pub enum RuleEdit {
    Remove(usize),
    Move(usize, usize),
}

impl RuleEdit {
    /// Whether an edit speaks of rules that exist.
    pub open spec fn fits(self, count: nat) -> bool {
        match self {
            RuleEdit::Remove(index) => index < count,
            RuleEdit::Move(from, to) => from < count && to < count,
        }
    }

    /// Where what stands at `k` after an edit stood before it.
    pub open spec fn source(self, k: int) -> int {
        match self {
            RuleEdit::Remove(index) => if k < index {
                k
            } else {
                k + 1
            },
            RuleEdit::Move(from, to) => if k == from {
                to as int
            } else if k == to {
                from as int
            } else {
                k
            },
        }
    }

    /// A list after an edit.
    pub open spec fn edited<A>(self, s: Seq<A>) -> Seq<A> {
        match self {
            RuleEdit::Remove(index) => s.remove(index as int),
            RuleEdit::Move(from, to) => s.update(from as int, s[to as int]).update(
                to as int,
                s[from as int],
            ),
        }
    }
}

fn exchange<T>(items: &mut Vec<T>, from: usize, to: usize)
    requires
        from < old(items)@.len(),
        to < old(items)@.len(),
    ensures
        final(items)@ == old(items)@.update(from as int, old(items)@[to as int]).update(
            to as int,
            old(items)@[from as int],
        ),
{
    let ghost before = items@;
    if from == to {
        assert(before.update(from as int, before[to as int]).update(to as int, before[from as int])
            =~= before);
        return;
    }
    let low = if from < to {
        from
    } else {
        to
    };
    let high = if from < to {
        to
    } else {
        from
    };
    let upper = items.remove(high);
    let lower = items.remove(low);
    items.insert(low, upper);
    items.insert(high, lower);
    assert(items@ =~= before.update(from as int, before[to as int]).update(
        to as int,
        before[from as int],
    ));
}

fn apply<T>(items: &mut Vec<T>, edit: RuleEdit)
    requires
        edit.fits(old(items)@.len()),
    ensures
        final(items)@ == edit.edited(old(items)@),
{
    match edit {
        RuleEdit::Remove(index) => {
            items.remove(index);
        },
        RuleEdit::Move(from, to) => {
            exchange(items, from, to);
        },
    }
}

impl RuleIds {
    /// Whether no two rules share an identity, and the next one is new.
    pub open spec fn well_formed(self) -> bool {
        &&& self.rows@.no_duplicates()
        &&& forall|i: int| 0 <= i < self.rows@.len() ==> #[trigger] self.rows@[i] < self.next
    }

    /// No identities.
    pub fn new() -> (ids: RuleIds)
        ensures
            ids.well_formed(),
            ids.rows@ == Seq::<u64>::empty(),
            ids.next == 0,
    {
        RuleIds { rows: Vec::new(), next: 0 }
    }

    /// Gives the rule at the end an identity of its own.
    pub fn push(&mut self)
        requires
            old(self).well_formed(),
            old(self).next < u64::MAX,
        ensures
            final(self).well_formed(),
            final(self).rows@ == old(self).rows@.push(old(self).next),
            final(self).next == old(self).next + 1,
    {
        self.rows.push(self.next);
        self.next = self.next + 1;
    }

    /// Fits the identities to the number of rules: what is too many goes, and what lacks is new.
    pub fn fit(&mut self, count: usize)
        requires
            old(self).well_formed(),
            old(self).next + count <= u64::MAX,
        ensures
            final(self).well_formed(),
            final(self).rows@.len() == count,
            forall|i: int|
                0 <= i < count && i < old(self).rows@.len() ==> #[trigger] final(self).rows@[i]
                    == old(self).rows@[i],
            forall|i: int|
                old(self).rows@.len() <= i < count ==> #[trigger] final(self).rows@[i]
                    == old(self).next + (i - old(self).rows@.len()),
            final(self).next == old(self).next + (if count > old(self).rows@.len() {
                count - old(self).rows@.len()
            } else {
                0
            }),
    {
        let ghost before = self.rows@;
        self.rows.truncate(count);
        proof {
            let kept = self.rows@;
            assert(kept =~= before.take(kept.len() as int));
            assert forall|i: int, j: int| 0 <= i < kept.len()
                && 0 <= j < kept.len()
                && i != j implies kept[i]
                != kept[j] by {
                assert(before[i] != before[j]);
            }
        }
        while self.rows.len() < count
            invariant
                self.well_formed(),
                old(self).rows@ == before,
                self.rows@.len() <= count,
                self.rows@.len() >= before.len() || self.rows@.len() == count,
                old(self).next + count <= u64::MAX,
                self.next == old(self).next + (if self.rows@.len() > before.len() {
                    self.rows@.len() - before.len()
                } else {
                    0
                }),
                forall|i: int|
                    0 <= i < self.rows@.len() && i < before.len() ==> #[trigger] self.rows@[i]
                        == before[i],
                forall|i: int|
                    before.len() <= i < self.rows@.len()
                        ==> #[trigger] self.rows@[i] == old(self).next + (i - before.len()),
            decreases count - self.rows@.len(),
        {
            self.push();
        }
    }
}

/// What the user did to the rules in one frame.
#[derive(Clone, Copy, Debug, PartialEq, Eq, Structural)]
pub struct RuleActions {
    /// A rule was changed in place.
    pub changed: bool,
    pub edit: Option<RuleEdit>,
    pub add: bool,
}

impl RuleActions {
    /// The identities after the actions.
    pub open spec fn rows_after(self, rows: Seq<u64>, next: u64, room: bool) -> Seq<u64> {
        let arranged = match self.edit {
            Some(edit) => edit.edited(rows),
            None => rows,
        };
        if self.add && room {
            arranged.push(next)
        } else {
            arranged
        }
    }

    /// The rules after the actions. A new rule matches a device type that is not entered yet, and
    /// stands last.
    pub open spec fn rules_after(self, rules: Seq<config::DeviceRuleView>) -> Seq<
        config::DeviceRuleView,
    > {
        let arranged = match self.edit {
            Some(edit) => edit.edited(rules),
            None => rules,
        };
        if self.add && arranged.len() < MAX_DEVICE_RULES {
            arranged.push(
                config::DeviceRuleView {
                    kind: DeviceRuleKind::Devtype,
                    match_text: Seq::empty(),
                    profile: Profile::Gamepad,
                },
            )
        } else {
            arranged
        }
    }

    /// How many rules there are after the rearrangement.
    pub open spec fn arranged_len(self, count: nat) -> int {
        match self.edit {
            Some(RuleEdit::Remove(_)) => count - 1,
            _ => count as int,
        }
    }

    /// Whether the actions change the form.
    pub open spec fn changes(self, count: nat) -> bool {
        self.changed || self.edit is Some || (self.add && self.arranged_len(count)
            < MAX_DEVICE_RULES)
    }
}

proof fn lemma_views_follow(rules: Seq<config::DeviceRule>, edit: RuleEdit)
    requires
        edit.fits(rules.len()),
    ensures
        config::rules_view(edit.edited(rules)) == edit.edited(config::rules_view(rules)),
{
    assert(config::rules_view(edit.edited(rules)) =~= edit.edited(config::rules_view(rules)));
}

proof fn lemma_identities_stay_distinct(ids: RuleIds, edit: RuleEdit)
    requires
        ids.well_formed(),
        edit.fits(ids.rows@.len()),
    ensures
        edit.edited(ids.rows@).no_duplicates(),
        forall|i: int|
            0 <= i < edit.edited(ids.rows@).len() ==> #[trigger] edit.edited(ids.rows@)[i]
                < ids.next,
{
    let rows = ids.rows@;
    let after = edit.edited(rows);
    assert forall|i: int| 0 <= i < after.len() implies #[trigger] after[i] == rows[edit.source(i)]
        && 0 <= edit.source(i) < rows.len() by {}
    assert forall|i: int, j: int| 0 <= i < after.len()
        && 0 <= j < after.len()
        && i != j implies after[i]
        != after[j] by {
        assert(after[i] == rows[edit.source(i)]);
        assert(after[j] == rows[edit.source(j)]);
        assert(edit.source(i) != edit.source(j));
    }
}

/// Does what the user did to the rules in one frame, and notes the change.
pub fn edit_rules(model: &mut ConfigModel, ids: &mut RuleIds, actions: RuleActions)
    requires
        old(model).well_formed(),
        old(ids).well_formed(),
        old(ids).rows@.len() == old(model).config.device_rules@.len(),
        old(ids).next < u64::MAX,
        actions.edit matches Some(edit) ==> edit.fits(old(ids).rows@.len()),
    ensures
        final(model).well_formed(),
        final(ids).well_formed(),
        final(ids).rows@.len() == final(model).config.device_rules@.len(),
        final(model).config@ == (config::ConfigView {
            device_rules: actions.rules_after(old(model).config@.device_rules),
            ..old(model).config@
        }),
        final(ids).rows@ == actions.rows_after(
            old(ids).rows@,
            old(ids).next,
            actions.arranged_len(old(ids).rows@.len()) < MAX_DEVICE_RULES,
        ),
        final(ids).next == old(ids).next + (if actions.add && actions.arranged_len(
            old(ids).rows@.len(),
        ) < MAX_DEVICE_RULES {
            1int
        } else {
            0
        }),
        *final(model) == (ConfigModel {
            config: final(model).config,
            dirty: old(model).dirty || actions.changes(old(ids).rows@.len()),
            revision: if actions.changes(old(ids).rows@.len()) {
                old(model).revision.wrapping_add(1)
            } else {
                old(model).revision
            },
            ..*old(model)
        }),
{
    let mut changed = actions.changed;
    if let Some(edit) = actions.edit {
        proof {
            lemma_views_follow(model.config.device_rules@, edit);
            lemma_identities_stay_distinct(*ids, edit);
        }
        apply(&mut model.config.device_rules, edit);
        apply(&mut ids.rows, edit);
        changed = true;
    }
    let ghost arranged = model.config.device_rules@;
    if actions.add && model.config.device_rules.len() < MAX_DEVICE_RULES {
        let rule = model::rule(DeviceRuleKind::Devtype, String::new(), Profile::Gamepad);
        assert(config::rules_view(arranged.push(rule)) =~= config::rules_view(arranged).push(rule@));
        assert(rule@.match_text =~= Seq::<char>::empty());
        model.config.device_rules.push(rule);
        ids.push();
        changed = true;
    }
    assert(model.config@ =~= config::ConfigView {
        device_rules: actions.rules_after(old(model).config@.device_rules),
        ..old(model).config@
    });
    if changed {
        model.mark_dirty();
    }
}

/// What is shown of one rule beside its own values.
#[derive(Debug)]
pub struct RuleRow {
    pub title: String,
    /// The rule has priority over all others.
    pub last: bool,
    pub can_move_earlier: bool,
    pub can_move_later: bool,
    /// The rule has no text to match.
    pub blank: bool,
}

/// What is shown of the rule at a position.
pub fn rule_row(model: &ConfigModel, index: usize) -> (row: RuleRow)
    requires
        index < model.config.device_rules@.len(),
    ensures
        row.title@ == "Rule "@ + text::decimal((index + 1) as nat),
        row.last == (index + 1 == model.config.device_rules@.len()),
        row.can_move_earlier == (index > 0),
        row.can_move_later == (index + 1 < model.config.device_rules@.len()),
        row.blank == (text::trimmed(model.config.device_rules@[index as int].match_text@).len()
            == 0),
{
    let count = model.config.device_rules.len();
    let mut title = "Rule ".to_owned();
    text::append_decimal(&mut title, index as u64 + 1);
    RuleRow {
        title,
        last: index + 1 == count,
        can_move_earlier: index > 0,
        can_move_later: index + 1 < count,
        blank: text::trim(model.config.device_rules[index].match_text.as_str()).is_empty(),
    }
}

/// Whether one more rule may be added.
pub fn can_add_rule(config: &Config) -> (r: bool)
    ensures
        r == (config.device_rules@.len() < MAX_DEVICE_RULES),
{
    config.device_rules.len() < MAX_DEVICE_RULES
}

/// How many rules there are, of how many there may be.
pub fn rule_count_text(config: &Config) -> (r: String)
    ensures
        r@ == text::decimal(config.device_rules@.len()) + " / "@ + text::decimal(
            MAX_DEVICE_RULES as nat,
        ) + " rules"@,
{
    let mut r = String::new();
    text::append_decimal(&mut r, config.device_rules.len() as u64);
    r.append(" / ");
    text::append_decimal(&mut r, MAX_DEVICE_RULES as u64);
    r.append(" rules");
    assert(r@ =~= text::decimal(config.device_rules@.len()) + " / "@ + text::decimal(
        MAX_DEVICE_RULES as nat,
    ) + " rules"@);
    r
}

/// Moving a rule and moving it back changes nothing.
pub proof fn moving_back_restores_the_order<A>(items: Seq<A>, from: usize, to: usize)
    requires
        from < items.len(),
        to < items.len(),
    ensures
        RuleEdit::Move(to, from).edited(RuleEdit::Move(from, to).edited(items)) == items,
{
    assert(RuleEdit::Move(to, from).edited(RuleEdit::Move(from, to).edited(items)) =~= items);
}

/// Each rule keeps its identity: a rule and its identity come from the same position.
pub proof fn identities_travel_with_rules<A>(rules: Seq<A>, rows: Seq<u64>, edit: RuleEdit, k: int)
    requires
        rules.len() == rows.len(),
        edit.fits(rules.len()),
        0 <= k < edit.edited(rules).len(),
    ensures
        0 <= edit.source(k) < rules.len(),
        edit.edited(rules)[k] == rules[edit.source(k)],
        edit.edited(rows)[k] == rows[edit.source(k)],
{
}

/// A rule that was moved to the end decides for every controller that it matches.
pub proof fn the_last_place_has_priority(
    view: config::ConfigView,
    from: usize,
    syspath: Option<Seq<char>>,
    devtype: Option<Seq<char>>,
)
    requires
        from < view.device_rules.len(),
        view.device_rules.len() <= usize::MAX,
        config::ConfigView::rule_matches(view.device_rules[from as int], syspath, devtype),
    ensures
        ({
            let last = (view.device_rules.len() - 1) as usize;
            let moved = config::ConfigView {
                device_rules: RuleEdit::Move(from, last).edited(view.device_rules),
                ..view
            };
            moved.profile_of(syspath, devtype) == view.device_rules[from as int].profile
        }),
{
}

} // verus!
