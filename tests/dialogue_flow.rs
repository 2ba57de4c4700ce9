use npc_dialogue::components::{ImageHandle, Player, PlayerLockState};
use npc_dialogue::dialogue::{Dialogue, DialogueQueue};
use npc_dialogue::interaction::{open_conversation, DialogueSession, INTERACT_RADIUS};
use npc_dialogue::spatial::{distance_sq, is_within, Point, SpatialIndex, NPC};

fn point(x: i32, y: i32, z: i32) -> Point {
    Point { x, y, z }
}

fn npc(name: &str, image: u64, position: Point, lines: &[&str]) -> NPC {
    NPC {
        name: name.to_string(),
        image: ImageHandle { id: image },
        position,
        lines: lines.iter().map(|l| l.to_string()).collect(),
    }
}

fn page(text: &str) -> Dialogue {
    Dialogue { text: text.to_string(), title: "Luffy".to_string(), image: ImageHandle { id: 3 } }
}

fn shown(session: &DialogueSession) -> Vec<String> {
    session.displays.iter().map(|d| d.page.text.clone()).collect()
}

#[test]
fn squared_distance_is_exact() {
    assert_eq!(distance_sq(point(0, 0, 0), point(3, 4, 12)), 169);
    assert_eq!(distance_sq(point(-5, 2, 7), point(-5, 2, 7)), 0);
    let far = distance_sq(point(i32::MIN, i32::MIN, i32::MIN), point(i32::MAX, i32::MAX, i32::MAX));
    assert_eq!(far, 3 * (u32::MAX as u128) * (u32::MAX as u128));
}

#[test]
fn within_includes_the_boundary() {
    assert!(is_within(point(400, 0, 0), point(0, 0, 0), 400));
    assert!(!is_within(point(401, 0, 0), point(0, 0, 0), 400));
    assert!(is_within(point(0, 0, 0), point(0, 0, 0), 0));
}

#[test]
fn query_returns_exactly_the_npcs_in_range() {
    let mut index = SpatialIndex::new();
    assert_eq!(index.insert(npc("a", 1, point(100, 0, 0), &["x"])), 0);
    assert_eq!(index.insert(npc("b", 1, point(0, 0, 500), &["x"])), 1);
    assert_eq!(index.insert(npc("c", 1, point(0, -300, 0), &["x"])), 2);
    assert_eq!(index.insert(npc("d", 1, point(240, 0, 320), &["x"])), 3);
    assert_eq!(index.query_within(point(0, 0, 0), 400), vec![0, 2, 3]);
    assert_eq!(index.query_within(point(0, 0, 0), 399), vec![0, 2]);
    assert_eq!(index.query_within(point(0, 0, 0), 0), Vec::<usize>::new());
    assert_eq!(index.query_within(point(0, 0, 500), 0), vec![1]);
    assert_eq!(index.len(), 4);
    assert_eq!(index.get(1).unwrap().name, "b");
    assert!(index.get(4).is_none());
}

#[test]
fn empty_index_answers_nothing() {
    let index = SpatialIndex::new();
    assert!(index.query_within(point(0, 0, 0), u32::MAX).is_empty());
}

#[test]
fn queue_takes_the_last_appended_page_first() {
    let mut q = DialogueQueue::new();
    assert!(q.is_empty());
    assert!(q.take_next().is_none());
    q.push(page("B"));
    q.push(page("C"));
    assert_eq!(q.len(), 2);
    assert_eq!(q.take_next().unwrap().text, "C");
    assert_eq!(q.take_next().unwrap().text, "B");
    assert!(q.take_next().is_none());
    assert!(q.is_empty());
}

#[test]
fn default_page_and_npc_are_empty() {
    let d = Dialogue::default();
    assert_eq!(d.text, "");
    assert_eq!(d.title, "");
    assert_eq!(d.image, ImageHandle::default_handle());
    let n = NPC::default();
    assert_eq!(n.name, "");
    assert_eq!(n.position, point(0, 0, 0));
    assert!(n.lines.is_empty());
}

#[test]
fn conversation_shows_first_line_and_queues_the_rest_in_order() {
    let n = npc("Luffy", 7, point(0, 0, 0), &["A", "B", "C"]);
    let d = open_conversation(&n).unwrap();
    assert_eq!(d.page.text, "A");
    assert_eq!(d.page.title, "Luffy");
    assert_eq!(d.page.image, ImageHandle { id: 7 });
    let queued: Vec<String> = d.queue.dialogues.iter().map(|p| p.text.clone()).collect();
    assert_eq!(queued, vec!["B".to_string(), "C".to_string()]);
    assert!(d.queue.dialogues.iter().all(|p| p.title == "Luffy" && p.image.id == 7));
}

#[test]
fn npc_without_lines_opens_nothing() {
    let n = npc("Mute", 1, point(0, 0, 0), &[]);
    assert!(open_conversation(&n).is_none());
    let mut index = SpatialIndex::new();
    index.insert(n);
    let mut s = DialogueSession::new();
    s.trigger_interaction(true, point(0, 0, 0), &index);
    assert!(!s.is_open());
    assert_eq!(s.player.lock, PlayerLockState::Unlocked);
}

#[test]
fn trigger_locks_the_player() {
    let mut index = SpatialIndex::new();
    index.insert(npc("Luffy", 1, point(100, 0, 0), &["hello"]));
    let mut s = DialogueSession::new();
    assert!(s.player.is_active());
    s.trigger_interaction(true, point(0, 0, 0), &index);
    assert_eq!(s.player.lock, PlayerLockState::Locked);
    assert!(!s.player.is_active());
    assert_eq!(shown(&s), vec!["hello".to_string()]);
}

#[test]
fn trigger_out_of_range_changes_nothing() {
    let mut index = SpatialIndex::new();
    index.insert(npc("Luffy", 1, point(1000, 0, 0), &["hello"]));
    let mut s = DialogueSession::new();
    s.trigger_interaction(true, point(0, 0, 0), &index);
    assert_eq!(s.player.lock, PlayerLockState::Unlocked);
    assert!(!s.is_open());
}

#[test]
fn no_press_no_conversation() {
    let mut index = SpatialIndex::new();
    index.insert(npc("Luffy", 1, point(0, 0, 0), &["hello"]));
    let mut s = DialogueSession::new();
    s.trigger_interaction(false, point(0, 0, 0), &index);
    assert!(!s.is_open());
    assert_eq!(s.player, Player::new());
}

#[test]
fn pages_show_first_then_last_in_first_out() {
    let mut index = SpatialIndex::new();
    index.insert(npc("Luffy", 1, point(0, 0, 100), &["A", "B", "C"]));
    let mut s = DialogueSession::new();
    s.trigger_interaction(true, point(0, 0, 0), &index);
    assert_eq!(shown(&s), vec!["A".to_string()]);
    s.advance_dialogue(true);
    assert_eq!(shown(&s), vec!["C".to_string()]);
    assert_eq!(s.player.lock, PlayerLockState::Locked);
    s.advance_dialogue(true);
    assert_eq!(shown(&s), vec!["B".to_string()]);
    assert_eq!(s.player.lock, PlayerLockState::Locked);
    s.advance_dialogue(true);
    assert!(!s.is_open());
    assert_eq!(s.player.lock, PlayerLockState::Unlocked);
}

#[test]
fn advance_on_empty_queue_closes_and_unlocks() {
    let mut index = SpatialIndex::new();
    index.insert(npc("Luffy", 1, point(0, 0, 0), &["only"]));
    let mut s = DialogueSession::new();
    s.trigger_interaction(true, point(0, 0, 0), &index);
    assert!(s.is_open());
    s.advance_dialogue(true);
    assert!(!s.is_open());
    assert_eq!(s.player.lock, PlayerLockState::Unlocked);
    s.advance_dialogue(true);
    assert!(!s.is_open());
    assert_eq!(s.player.lock, PlayerLockState::Unlocked);
}

#[test]
fn advance_needs_a_release() {
    let mut index = SpatialIndex::new();
    index.insert(npc("Luffy", 1, point(0, 0, 0), &["A", "B"]));
    let mut s = DialogueSession::new();
    s.trigger_interaction(true, point(0, 0, 0), &index);
    s.advance_dialogue(false);
    s.advance_dialogue(false);
    assert_eq!(shown(&s), vec!["A".to_string()]);
    assert_eq!(s.player.lock, PlayerLockState::Locked);
}

#[test]
fn press_while_locked_opens_nothing_more() {
    let mut index = SpatialIndex::new();
    index.insert(npc("Luffy", 1, point(0, 0, 0), &["A", "B"]));
    let mut s = DialogueSession::new();
    s.trigger_interaction(true, point(0, 0, 0), &index);
    assert_eq!(s.displays.len(), 1);
    s.trigger_interaction(true, point(0, 0, 0), &index);
    s.trigger_interaction(true, point(0, 0, 0), &index);
    assert_eq!(s.displays.len(), 1);
    assert_eq!(shown(&s), vec!["A".to_string()]);
}

#[test]
fn only_the_npc_inside_the_radius_talks() {
    let mut index = SpatialIndex::new();
    index.insert(npc("Near", 1, point(390, 0, 0), &["near"]));
    index.insert(npc("Far", 2, point(-410, 0, 0), &["far"]));
    assert_eq!(INTERACT_RADIUS, 400);
    let mut s = DialogueSession::new();
    s.trigger_interaction(true, point(0, 0, 0), &index);
    assert_eq!(s.displays.len(), 1);
    assert_eq!(s.displays[0].page.title, "Near");
    assert_eq!(s.player.lock, PlayerLockState::Locked);
}

#[test]
fn two_npcs_in_range_open_two_conversations() {
    let mut index = SpatialIndex::new();
    index.insert(npc("Luffy", 1, point(100, 0, 0), &["one", "two"]));
    index.insert(npc("Luffy 2", 2, point(0, 0, -200), &["uno"]));
    let mut s = DialogueSession::new();
    s.trigger_interaction(true, point(0, 0, 0), &index);
    assert_eq!(s.displays.len(), 2);
    assert_eq!(s.displays[0].page.title, "Luffy");
    assert_eq!(s.displays[1].page.title, "Luffy 2");
    assert_eq!(s.player.lock, PlayerLockState::Locked);
    s.advance_dialogue(true);
    assert_eq!(shown(&s), vec!["two".to_string()]);
    assert_eq!(s.player.lock, PlayerLockState::Locked);
    s.advance_dialogue(true);
    assert!(!s.is_open());
    assert_eq!(s.player.lock, PlayerLockState::Unlocked);
}

#[test]
fn query_agrees_with_euclidean_distance_on_a_grid() {
    let mut index = SpatialIndex::new();
    let mut coords = Vec::new();
    for x in -6..=6 {
        for z in -6..=6 {
            let p = point(x * 75, (x * z) % 3 * 40, z * 75);
            coords.push(p);
            index.insert(npc("n", 1, p, &["x"]));
        }
    }
    let centre = point(30, 20, -10);
    for radius in [0u32, 100, 250, 400, 401, 1000] {
        let expected: Vec<usize> = coords
            .iter()
            .enumerate()
            .filter(|(_, p)| {
                let dx = (p.x - centre.x) as f64;
                let dy = (p.y - centre.y) as f64;
                let dz = (p.z - centre.z) as f64;
                (dx * dx + dy * dy + dz * dz).sqrt() <= radius as f64
            })
            .map(|(i, _)| i)
            .collect();
        assert_eq!(index.query_within(centre, radius), expected);
    }
}
