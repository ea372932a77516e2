use std::sync::mpsc;

use rusty_mechanical_keyboard::keymap::get_sound_key_for_key;
use rusty_mechanical_keyboard::keymap::PhysicalKey;
use rusty_mechanical_keyboard::manager::SoundManager;
use rusty_mechanical_keyboard::pool::Playback;
use rusty_mechanical_keyboard::store::SampleStore;

fn manager_with(ids: &[&str]) -> SoundManager {
    let mut store = SampleStore::new();
    for id in ids.iter() {
        store.insert(id.to_string(), id.as_bytes().to_vec());
    }
    SoundManager::new(store)
}

fn drain(manager: &mut SoundManager, receiver: mpsc::Receiver<String>) -> Vec<Option<Playback>> {
    let mut played = Vec::new();
    for sound_key in receiver {
        played.push(manager.play_sound_by_key(&sound_key));
    }
    played
}

#[test]
fn keys_are_played_in_the_order_in_which_they_were_sent() {
    let mut manager = manager_with(&["1", "2", "3"]);
    let (sender, receiver) = mpsc::channel::<String>();
    for key in ["1", "2", "3"] {
        sender.send(key.to_string()).expect("the receiver is alive");
    }
    drop(sender);
    let played = drain(&mut manager, receiver);
    assert_eq!(
        played,
        vec![
            Some(Playback { voice: 0, sound_data: b"1".to_vec() }),
            Some(Playback { voice: 1, sound_data: b"2".to_vec() }),
            Some(Playback { voice: 2, sound_data: b"3".to_vec() }),
        ]
    );
}

#[test]
fn three_presses_of_one_key_go_to_the_first_three_voices() {
    let mut manager = manager_with(&["1", "2", "57"]);
    let (sender, receiver) = mpsc::channel::<String>();
    for _ in 0..3 {
        let sound_key = get_sound_key_for_key(&PhysicalKey::KeyQ);
        assert_eq!(sound_key, "1");
        let _ = sender.send(sound_key);
    }
    drop(sender);
    let played = drain(&mut manager, receiver);
    assert_eq!(
        played,
        vec![
            Some(Playback { voice: 0, sound_data: b"1".to_vec() }),
            Some(Playback { voice: 1, sound_data: b"1".to_vec() }),
            Some(Playback { voice: 2, sound_data: b"1".to_vec() }),
        ]
    );
    assert_eq!(manager.sound_pool().pool_size(), 8);
    assert_eq!(manager.sound_pool().current_index(), 3);
}

#[test]
fn sending_does_not_wait_for_the_consumer() {
    let (sender, receiver) = mpsc::channel::<String>();
    for _ in 0..10_000 {
        let sound_key = get_sound_key_for_key(&PhysicalKey::Space);
        sender.send(sound_key).expect("the receiver is alive");
    }
    drop(sender);
    let mut manager = manager_with(&["57"]);
    let played = drain(&mut manager, receiver);
    assert_eq!(played.len(), 10_000);
    for (call, playback) in played.iter().enumerate() {
        assert_eq!(playback, &Some(Playback { voice: call % 8, sound_data: b"57".to_vec() }));
    }
}

#[test]
fn a_send_after_the_consumer_is_gone_fails_quietly() {
    let (sender, receiver) = mpsc::channel::<String>();
    drop(receiver);
    let sound_key = get_sound_key_for_key(&PhysicalKey::KeyA);
    let _ = sender.send(sound_key);
}

#[test]
fn a_whole_sentence_walks_round_the_voices() {
    let mut manager = manager_with(&["1", "35", "3", "38", "10", "57"]);
    let presses = [
        PhysicalKey::KeyH,
        PhysicalKey::KeyE,
        PhysicalKey::KeyL,
        PhysicalKey::KeyL,
        PhysicalKey::KeyO,
        PhysicalKey::Space,
        PhysicalKey::KeyH,
        PhysicalKey::KeyE,
        PhysicalKey::KeyL,
        PhysicalKey::KeyL,
        PhysicalKey::KeyO,
    ];
    let expected = ["35", "3", "38", "38", "10", "57", "35", "3", "38", "38", "10"];
    for (call, key) in presses.iter().enumerate() {
        let sound_key = get_sound_key_for_key(key);
        let playback = manager.play_sound_by_key(&sound_key).expect("the key has a sample");
        assert_eq!(playback.voice, call % 8);
        assert_eq!(playback.sound_data, expected[call].as_bytes().to_vec());
    }
}
