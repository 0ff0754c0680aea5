//! Quests: a character runs at most one quest at a time, as a quest id, a
//! step and a variable (quest 0 is none). Requests that do not fit the
//! current quest are refused as hacks.

use vstd::prelude::*;

use crate::protocol::{le16, MessageWriter};

verus! {

/// Whether a quest has been cleared (both directions).
pub const MSG_QUEST_NPC_REQ: u16 = 87;

/// The Bubbles item given up for the first quest's reward.
pub const QUEST_1_GIVEN_ITEM: u16 = 4;

/// The seed the first quest's reward replaces it with.
pub const QUEST_1_REWARD_ITEM: u16 = 9;

/// A character's quest state: quest id (0: none), step, variable.
#[derive(Debug, Clone, Copy, PartialEq, Eq, Structural)]
pub struct QuestState {
    pub quest_id: i16,
    pub step: i16,
    pub var: i16,
}

/// No quest running.
pub open spec fn no_quest() -> QuestState {
    QuestState { quest_id: 0, step: 0, var: 0 }
}

/// Starting quest `quest_id`: refused for a quest already cleared, else the
/// quest runs from step 1.
pub fn quest_begin(quest_id: u8, cleared: bool) -> (r: Option<QuestState>)
    ensures
        r == quest_begin_spec(quest_id, cleared),
{
    if cleared {
        None
    } else {
        Some(QuestState { quest_id: quest_id as i16, step: 1, var: 0 })
    }
}

/// Cancelling the running quest: refused when none runs.
pub fn quest_cancel(state: QuestState) -> (r: Option<QuestState>)
    ensures
        r == quest_cancel_spec(state),
{
    if state.quest_id == 0 {
        None
    } else {
        Some(QuestState { quest_id: 0, step: 0, var: 0 })
    }
}

/// Clearing quest `quest_id`: only the running quest can be cleared; it is
/// then recorded as cleared and no quest runs.
pub fn quest_clear(quest_id: u8, state: QuestState) -> (r: Option<QuestState>)
    ensures
        r == quest_clear_spec(quest_id, state),
{
    if state.quest_id != quest_id as i16 {
        None
    } else {
        Some(QuestState { quest_id: 0, step: 0, var: 0 })
    }
}

/// Advancing the running quest by one step: refused when none runs.
pub fn quest_step_inc(state: QuestState) -> (r: Option<QuestState>)
    requires
        state.step < i16::MAX,
    ensures
        r == (if state.quest_id == 0 {
            None
        } else {
            Some(QuestState { quest_id: state.quest_id, step: (state.step + 1) as i16, var: state.var })
        }),
{
    if state.quest_id == 0 {
        None
    } else {
        Some(QuestState { quest_id: state.quest_id, step: state.step + 1, var: state.var })
    }
}

/// The first slot holding `id`, 1-based.
pub open spec fn first_slot_with(items: Seq<u16>, id: u16, from: nat) -> Option<u8>
    decreases items.len() - from,
{
    if from >= items.len() {
        None
    } else if items[from as int] == id {
        Some((from + 1) as u8)
    } else {
        first_slot_with(items, id, from + 1)
    }
}

/// The reward for `quest_id` at `step`, claimed with `state` running: only
/// the running quest at its current (non-zero) step; quest 1 rewards at
/// step 2 by turning the first Bubbles into a seed (the slot is returned).
pub open spec fn quest_reward_slot(quest_id: u8, step: u8, state: QuestState, items: Seq<u16>) -> Option<u8> {
    if state.quest_id == 0 || state.step == 0 || quest_id as i16 != state.quest_id || step as i16 != state.step {
        None
    } else if quest_id == 1 && step == 2 {
        first_slot_with(items, QUEST_1_GIVEN_ITEM, 0)
    } else {
        None
    }
}

/// Decides a reward claim; `Some(slot)`: the Bubbles in `slot` become a
/// seed.
pub fn quest_reward(quest_id: u8, step: u8, state: QuestState, items: &[u16; 9]) -> (r: Option<u8>)
    ensures
        r == quest_reward_slot(quest_id, step, state, items@),
{
    if state.quest_id == 0 || state.step == 0 || quest_id as i16 != state.quest_id || step as i16 != state.step {
        return None;
    }
    if !(quest_id == 1 && step == 2) {
        return None;
    }
    let mut i: usize = 0;
    while i < 9
        invariant
            i <= 9,
            quest_reward_slot(quest_id, step, state, items@) == first_slot_with(items@, QUEST_1_GIVEN_ITEM, 0),
            first_slot_with(items@, QUEST_1_GIVEN_ITEM, 0) == first_slot_with(items@, QUEST_1_GIVEN_ITEM, i as nat),
        decreases 9 - i,
    {
        if items[i] == QUEST_1_GIVEN_ITEM {
            return Some((i + 1) as u8);
        }
        i += 1;
    }
    None
}

/// The answer to a quest status question: the quest id and whether it is
/// cleared.
pub open spec fn quest_npc_message(quest_id: u8, cleared: bool) -> Seq<u8> {
    le16(MSG_QUEST_NPC_REQ) + seq![quest_id, if cleared { 1u8 } else { 0u8 }]
}

/// Builds the answer to a quest status question.
pub fn build_quest_npc(quest_id: u8, cleared: bool) -> (r: Vec<u8>)
    ensures
        r@ == quest_npc_message(quest_id, cleared),
{
    let mut w = MessageWriter::new();
    w.write_u16(MSG_QUEST_NPC_REQ);
    w.write_u8(quest_id);
    w.write_u8(if cleared { 1 } else { 0 });
    let r = w.into_bytes();
    assert(r@ =~= quest_npc_message(quest_id, cleared));
    r
}

/// A quest that was begun (and not cleared before) can be cleared right
/// away, which ends it; with nothing running there is nothing to cancel.
pub proof fn lemma_quest_lifecycle(quest_id: u8)
    ensures
        quest_begin_spec(quest_id, false) matches Some(s) && quest_clear_spec(quest_id, s) == Some(no_quest()),
        quest_cancel_spec(no_quest()) is None,
{
}

/// `quest_begin` as a formula.
pub open spec fn quest_begin_spec(quest_id: u8, cleared: bool) -> Option<QuestState> {
    if cleared { None } else { Some(QuestState { quest_id: quest_id as i16, step: 1, var: 0 }) }
}

/// `quest_clear` as a formula.
pub open spec fn quest_clear_spec(quest_id: u8, state: QuestState) -> Option<QuestState> {
    if state.quest_id != quest_id as i16 { None } else { Some(no_quest()) }
}

/// `quest_cancel` as a formula.
pub open spec fn quest_cancel_spec(state: QuestState) -> Option<QuestState> {
    if state.quest_id == 0 { None } else { Some(no_quest()) }
}

} // verus!
