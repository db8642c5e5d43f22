use fuyao_core::emit::envelope;
use fuyao_core::message::{
    ControlCommand, ControlPayload, QueueEntry, UserMessageMode, UserMessageSource, UserPayload,
};
use fuyao_core::queue::{
    consume_all_guide, drain_pending_to_guide, handle_inbound_item, plan_batch, remove_queued,
    retain_out_matching, title_seed, BatchStep, ConsumeGate, ConsumeTiming, TurnOutcome,
};
use std::collections::VecDeque;

fn entry(content: &str, mode: UserMessageMode, id: Option<&str>) -> QueueEntry {
    QueueEntry::User(envelope(UserPayload {
        content: content.to_string(),
        images: vec![],
        mode,
        source: UserMessageSource::User,
        client_message_id: id.map(String::from),
    }))
}

fn user_entry(content: &str) -> QueueEntry {
    entry(content, UserMessageMode::Guide, None)
}

fn control(id: Option<&str>) -> QueueEntry {
    QueueEntry::Control(envelope(ControlPayload {
        command: ControlCommand::Compress,
        mode: UserMessageMode::Pending,
        client_message_id: id.map(String::from),
        note: None,
    }))
}

fn queue_with(entries: Vec<QueueEntry>) -> VecDeque<QueueEntry> {
    entries.into()
}

fn content(e: &QueueEntry) -> Option<String> {
    match e {
        QueueEntry::User(m) => Some(m.payload.content.clone()),
        QueueEntry::Control(_) => None,
    }
}

fn contents(entries: &[QueueEntry]) -> Vec<String> {
    entries.iter().filter_map(content).collect()
}

fn queue_contents(q: &VecDeque<QueueEntry>) -> Vec<String> {
    q.iter().filter_map(content).collect()
}

#[test]
fn after_tool_batch_takes_guide_and_locks_pending() {
    let gate = ConsumeGate::default();
    let mut guide = queue_with(vec![user_entry("g1"), user_entry("g2")]);
    let mut pending = queue_with(vec![user_entry("p1")]);
    let taken = gate.take(ConsumeTiming::AfterToolBatch, &mut guide, &mut pending);
    assert_eq!(contents(&taken), vec!["g1", "g2"]);
    assert!(guide.is_empty(), "guide 应被消费空");
    assert_eq!(queue_contents(&pending), vec!["p1"], "时机①不动 pending（等链结束条件未满足）");
}

#[test]
fn final_reply_pours_pending_after_guide_then_takes_all() {
    let gate = ConsumeGate::default();
    let mut guide = queue_with(vec![user_entry("g1")]);
    let mut pending = queue_with(vec![user_entry("p1"), user_entry("p2")]);
    let taken = gate.take(ConsumeTiming::FinalReply, &mut guide, &mut pending);
    assert_eq!(
        contents(&taken),
        vec!["g1", "p1", "p2"],
        "倒灌顺序：guide 现有内容在前、pending 追加在后"
    );
    assert!(guide.is_empty());
    assert!(pending.is_empty());
}

#[test]
fn idle_prefers_guide_and_unlocks_pending_only_when_guide_empty() {
    let gate = ConsumeGate::default();
    let mut guide = queue_with(vec![user_entry("g1")]);
    let mut pending = queue_with(vec![user_entry("p1")]);
    let taken = gate.take(ConsumeTiming::Idle, &mut guide, &mut pending);
    assert_eq!(contents(&taken), vec!["g1"]);
    assert_eq!(queue_contents(&pending), vec!["p1"]);
    let mut guide = queue_with(vec![]);
    let mut pending = queue_with(vec![user_entry("p1"), user_entry("p2")]);
    let taken = gate.take(ConsumeTiming::Idle, &mut guide, &mut pending);
    assert_eq!(contents(&taken), vec!["p1", "p2"]);
    assert!(pending.is_empty());
}

#[test]
fn paused_gate_takes_nothing_at_any_timing() {
    for outcome in [TurnOutcome::Interrupted, TurnOutcome::Failed] {
        let mut gate = ConsumeGate::default();
        gate.on_turn_end(outcome);
        for timing in [
            ConsumeTiming::Idle,
            ConsumeTiming::AfterToolBatch,
            ConsumeTiming::FinalReply,
        ] {
            let mut guide = queue_with(vec![user_entry("g1")]);
            let mut pending = queue_with(vec![user_entry("p1")]);
            let taken = gate.take(timing, &mut guide, &mut pending);
            assert!(taken.is_empty(), "{outcome:?} 后 {timing:?} 应空取");
            assert_eq!(queue_contents(&guide), vec!["g1"], "guide 剩余应保留");
            assert_eq!(queue_contents(&pending), vec!["p1"], "pending 剩余应保留");
        }
    }
}

#[test]
fn permission_transitions_on_turn_outcome_and_new_intent() {
    let mut gate = ConsumeGate::default();
    let mut empty = queue_with(vec![]);
    let mut guide = queue_with(vec![user_entry("g0")]);
    assert_eq!(
        contents(&gate.take(ConsumeTiming::Idle, &mut guide, &mut empty)),
        vec!["g0"],
        "默认应允许消费"
    );
    gate.on_turn_end(TurnOutcome::Completed);
    let mut guide = queue_with(vec![user_entry("g1")]);
    assert_eq!(
        contents(&gate.take(ConsumeTiming::Idle, &mut guide, &mut empty)),
        vec!["g1"],
        "Completed 后应允许消费"
    );
    for outcome in [TurnOutcome::Interrupted, TurnOutcome::Failed] {
        gate.on_turn_end(outcome);
        let mut guide = queue_with(vec![user_entry("g1")]);
        assert!(
            gate.take(ConsumeTiming::Idle, &mut guide, &mut empty).is_empty(),
            "{outcome:?} 后应暂停消费"
        );
        gate.resume_on_new_intent();
        assert_eq!(
            contents(&gate.take(ConsumeTiming::Idle, &mut guide, &mut empty)),
            vec!["g1"],
            "{outcome:?} 恢复后应允许消费"
        );
    }
    gate.on_turn_end(TurnOutcome::Completed);
    gate.resume_on_new_intent();
    let mut guide = queue_with(vec![user_entry("g1")]);
    assert_eq!(
        contents(&gate.take(ConsumeTiming::Idle, &mut guide, &mut empty)),
        vec!["g1"]
    );
}

#[test]
fn queues_are_emptied_in_order() {
    let mut guide = queue_with(vec![user_entry("a"), user_entry("b")]);
    let mut pending = queue_with(vec![user_entry("c")]);
    drain_pending_to_guide(&mut guide, &mut pending);
    assert_eq!(queue_contents(&guide), vec!["a", "b", "c"]);
    drain_pending_to_guide(&mut guide, &mut pending);
    assert_eq!(contents(&consume_all_guide(&mut guide)), vec!["a", "b", "c"]);
    assert!(consume_all_guide(&mut guide).is_empty());
}

#[test]
fn entries_join_the_queue_of_their_mode() {
    let mut guide = queue_with(vec![]);
    let mut pending = queue_with(vec![]);
    handle_inbound_item(&mut guide, &mut pending, user_entry("g"));
    handle_inbound_item(&mut guide, &mut pending, entry("p", UserMessageMode::Pending, None));
    handle_inbound_item(&mut guide, &mut pending, control(None));
    assert_eq!(queue_contents(&guide), vec!["g"]);
    assert_eq!(queue_contents(&pending), vec!["p"]);
    assert_eq!(pending.len(), 2);
}

#[test]
fn named_entries_can_be_taken_back() {
    let mut queue = queue_with(vec![
        entry("a", UserMessageMode::Guide, Some("x")),
        user_entry("b"),
        entry("c", UserMessageMode::Guide, Some("y")),
        control(Some("x")),
        entry("d", UserMessageMode::Guide, Some("x")),
    ]);
    assert_eq!(retain_out_matching(&mut queue, "x"), 3);
    assert_eq!(queue_contents(&queue), vec!["b", "c"]);
    assert_eq!(retain_out_matching(&mut queue, "x"), 0);
    assert_eq!(queue.len(), 2);
}

#[test]
fn both_queues_are_searched_for_a_name() {
    let mut guide = queue_with(vec![entry("a", UserMessageMode::Guide, Some("x"))]);
    let mut pending = queue_with(vec![control(Some("x")), control(None)]);
    assert_eq!(remove_queued(&mut guide, &mut pending, "x"), 2);
    assert!(guide.is_empty());
    assert_eq!(pending.len(), 1);
    assert_eq!(remove_queued(&mut guide, &mut pending, ""), 0);
}

#[test]
fn batches_split_into_stretches_and_commands() {
    let steps = plan_batch(vec![
        user_entry("a"),
        user_entry("b"),
        control(None),
        control(None),
        user_entry("c"),
    ]);
    let shape: Vec<usize> = steps
        .iter()
        .map(|s| match s {
            BatchStep::Inject(run) => run.len(),
            BatchStep::Control(_) => 0,
        })
        .collect();
    assert_eq!(shape, vec![2, 0, 0, 1]);
    assert!(plan_batch(vec![]).is_empty());
}

#[test]
fn title_comes_from_the_first_user_message() {
    assert_eq!(
        title_seed(&vec![control(None), user_entry("题"), user_entry("b")]).as_deref(),
        Some("题")
    );
    assert_eq!(title_seed(&vec![control(None)]), None);
}
