use sounddeck::button::{build_state, Button, SlotFiles};
use sounddeck::geometry::{ButtonConfig, Buttons, Device, Row};
use sounddeck::picture::{Icon, Picture};
use sounddeck::playback::{
    complete_press, handle_press, maybe_notify, on_poll, pressed_idx, set_playing, redraw_image,
    AudioCommand, Notice, Poll, Redraw, Step,
};

fn config() -> ButtonConfig {
    ButtonConfig {
        text: None,
        text_size: None,
        image: None,
        sound: None,
        repeat: false,
        topic: None,
        payload: None,
        playlist: None,
    }
}

fn solid(width: u32, height: u32, rgba: [u8; 4]) -> Picture {
    let mut pixels = Vec::new();
    for _ in 0..(width * height) {
        pixels.extend_from_slice(&rgba);
    }
    Picture { width, height, pixels }
}

fn play_icon() -> Picture {
    solid(3, 3, [0, 255, 0, 255])
}

fn stop_icon() -> Picture {
    solid(3, 3, [255, 0, 0, 255])
}

fn empty_row() -> Row {
    Row { one: None, two: None, three: None, four: None, five: None, six: None, seven: None, eight: None }
}

fn press(index: usize, keys: usize) -> Vec<u8> {
    let mut v = vec![0u8; keys];
    v[index] = 1;
    v
}

fn sound_button(image: Option<Picture>) -> Button {
    let mut conf = config();
    conf.sound = Some("a.mp3".to_string());
    Button { config: conf, playing: false, image, playlist_contents: None }
}

fn flags(table: &[Button]) -> Vec<bool> {
    table.iter().map(|b| b.playing).collect()
}

#[test]
fn pressed_index_is_the_first_one() {
    assert_eq!(pressed_idx(&[0, 0, 1, 0]), Some(2));
    assert_eq!(pressed_idx(&[1, 0, 1, 1]), Some(0));
    assert_eq!(pressed_idx(&[0, 0, 0, 1]), Some(3));
    assert_eq!(pressed_idx(&[0, 0, 0]), None);
    assert_eq!(pressed_idx(&[]), None);
    assert_eq!(pressed_idx(&[2, 255, 0]), None);
    assert_eq!(pressed_idx(&[2, 1]), Some(1));
}

#[test]
fn sound_button_toggles_between_idle_and_playing() {
    let base = solid(6, 6, [9, 9, 9, 255]);
    let mut table = vec![sound_button(Some(base.copy()))];
    let play = play_icon();
    let stop = stop_icon();

    let plan = handle_press(&table, &[1], &play, &stop, true, false).unwrap();
    assert_eq!(plan.index, 0);
    assert!(plan.playing);
    assert_eq!(plan.audio, AudioCommand::Start { files: vec!["a.mp3".to_string()], repeat: false });
    assert_eq!(plan.redraw, Redraw::Overlay(Icon::Stop));
    assert_eq!(plan.image, Some(base.overlay(&stop)));
    assert_eq!(plan.notice, None);
    complete_press(&mut table, &plan, true);
    assert!(table[0].playing);

    let plan = handle_press(&table, &[1], &play, &stop, true, false).unwrap();
    assert!(!plan.playing);
    assert_eq!(plan.audio, AudioCommand::Stop);
    assert_eq!(plan.redraw, Redraw::Overlay(Icon::Play));
    assert_eq!(plan.image, Some(base.overlay(&play)));
    complete_press(&mut table, &plan, true);
    assert!(!table[0].playing);
    assert_eq!(table[0].image, Some(base));
}

#[test]
fn stopping_without_icons_shows_the_bare_base_image() {
    let base = solid(6, 6, [9, 9, 9, 255]);
    let mut button = sound_button(Some(base.copy()));
    button.playing = true;
    let table = vec![button];
    let plan = handle_press(&table, &[1], &play_icon(), &stop_icon(), false, false).unwrap();
    assert!(!plan.playing);
    assert_eq!(plan.redraw, Redraw::BareBase);
    assert_eq!(plan.image, Some(base));
}

#[test]
fn button_without_base_image_shows_the_bare_icon() {
    let mut table = vec![sound_button(None)];
    let play = play_icon();
    let stop = stop_icon();
    let plan = handle_press(&table, &[1], &play, &stop, false, false).unwrap();
    assert_eq!(plan.redraw, Redraw::Bare(Icon::Stop));
    assert_eq!(plan.image, Some(stop.copy()));
    complete_press(&mut table, &plan, true);
    for show in [false, true] {
        let plan = handle_press(&table, &[1], &play, &stop, show, false).unwrap();
        assert_eq!(plan.redraw, Redraw::Bare(Icon::Play));
        assert_eq!(plan.image, Some(play.copy()));
    }
}

#[test]
fn end_to_end_sound_button_on_a_three_by_five_panel() {
    let mut conf = config();
    conf.sound = Some("a.mp3".to_string());
    conf.text = Some("A".to_string());
    let mut first = empty_row();
    first.one = Some(conf);
    let buttons = Buttons { first: Some(first), second: None, third: None, fourth: None };
    let device = Device::Mk2;
    let (width, height) = device.image_size();
    let slots = buttons.list(device);
    assert_eq!(slots.len(), 15);
    let mut table = build_state(slots, &Vec::new(), width, height).unwrap();
    assert_eq!(table.len(), 15);
    let play = play_icon();
    let stop = stop_icon();
    let base = Picture::black(72, 72);

    for show in [true, false] {
        let plan = handle_press(&table, &press(0, 15), &play, &stop, show, false).unwrap();
        assert_eq!(plan.index, 0);
        assert!(plan.playing);
        assert_eq!(plan.image, Some(base.overlay(&stop)));
        assert_eq!(plan.audio, AudioCommand::Start { files: vec!["a.mp3".to_string()], repeat: false });
        complete_press(&mut table, &plan, true);
        assert!(table[0].playing);
        assert!(flags(&table)[1..].iter().all(|f| !f));

        let plan = handle_press(&table, &press(0, 15), &play, &stop, show, false).unwrap();
        assert!(!plan.playing);
        assert_eq!(plan.audio, AudioCommand::Stop);
        let want = if show { base.overlay(&play) } else { base.copy() };
        assert_eq!(plan.image, Some(want));
        complete_press(&mut table, &plan, true);
        assert!(flags(&table).iter().all(|f| !f));
    }
}

#[test]
fn end_to_end_repeating_playlist_plays_until_another_press_stops_it() {
    let mut list = config();
    list.playlist = Some("p.m3u".to_string());
    list.repeat = true;
    let mut other = config();
    other.sound = Some("z.mp3".to_string());
    let mut first = empty_row();
    first.one = Some(other);
    first.two = Some(list);
    let buttons = Buttons { first: Some(first), second: None, third: None, fourth: None };
    let slots = buttons.list(Device::Original);
    let files = vec![
        SlotFiles { image: None, playlist: None },
        SlotFiles { image: None, playlist: Some(b"one.mp3\ntwo.mp3\n".to_vec()) },
    ];
    let mut table = build_state(slots, &files, 72, 72).unwrap();
    let play = play_icon();
    let stop = stop_icon();

    let plan = handle_press(&table, &press(1, 15), &play, &stop, true, false).unwrap();
    assert_eq!(plan.index, 1);
    assert_eq!(
        plan.audio,
        AudioCommand::Start { files: vec!["one.mp3".to_string(), "two.mp3".to_string()], repeat: true }
    );
    assert!(plan.playing);
    assert_eq!(plan.image, Some(stop.copy()));
    complete_press(&mut table, &plan, true);
    assert!(table[1].playing);

    let plan = handle_press(&table, &press(0, 15), &play, &stop, true, false).unwrap();
    assert_eq!(plan.index, 0);
    assert_eq!(plan.audio, AudioCommand::Start { files: vec!["z.mp3".to_string()], repeat: false });
    complete_press(&mut table, &plan, true);
    assert!(table[0].playing);
    assert!(table[1].playing);

    let plan = handle_press(&table, &press(1, 15), &play, &stop, true, false).unwrap();
    assert_eq!(plan.audio, AudioCommand::Stop);
    assert!(!plan.playing);
}

#[test]
fn playlist_takes_precedence_over_a_plain_sound() {
    let mut conf = config();
    conf.sound = Some("single.mp3".to_string());
    conf.playlist = Some("p.m3u".to_string());
    let button = Button {
        config: conf,
        playing: false,
        image: None,
        playlist_contents: Some(vec!["x.mp3".to_string(), "y.mp3".to_string()]),
    };
    assert_eq!(button.source_files(), vec!["x.mp3".to_string(), "y.mp3".to_string()]);
    assert!(button.has_audio());
    let plan = handle_press(&vec![button], &[1], &play_icon(), &stop_icon(), true, false).unwrap();
    assert_eq!(
        plan.audio,
        AudioCommand::Start { files: vec!["x.mp3".to_string(), "y.mp3".to_string()], repeat: false }
    );
}

#[test]
fn button_without_audio_keeps_everything_but_may_notify() {
    let mut conf = config();
    conf.text = Some("note".to_string());
    conf.topic = Some("room/light".to_string());
    conf.payload = Some("on".to_string());
    let button = Button { config: conf, playing: false, image: Some(Picture::black(4, 4)), playlist_contents: None };
    assert!(!button.has_audio());
    assert_eq!(button.source_files(), Vec::<String>::new());
    let mut table = vec![button];
    let plan = handle_press(&table, &[1], &play_icon(), &stop_icon(), true, true).unwrap();
    assert_eq!(plan.audio, AudioCommand::Keep);
    assert_eq!(plan.redraw, Redraw::Keep);
    assert_eq!(plan.image, None);
    assert!(!plan.playing);
    assert_eq!(plan.notice, Some(Notice { topic: "room/light".to_string(), payload: "on".to_string() }));
    complete_press(&mut table, &plan, true);
    assert!(!table[0].playing);
}

#[test]
fn inert_slot_does_nothing() {
    let table = vec![Button::default()];
    let plan = handle_press(&table, &[1], &play_icon(), &stop_icon(), true, true).unwrap();
    assert_eq!(plan.audio, AudioCommand::Keep);
    assert_eq!(plan.redraw, Redraw::Keep);
    assert_eq!(plan.image, None);
    assert_eq!(plan.notice, None);
    assert!(!plan.playing);
}

#[test]
fn notice_needs_topic_payload_and_a_live_broker() {
    let mut conf = config();
    conf.topic = Some("t".to_string());
    conf.payload = Some("p".to_string());
    let full = Button { config: conf.clone(), playing: false, image: None, playlist_contents: None };
    assert_eq!(maybe_notify(&full, true), Some(Notice { topic: "t".to_string(), payload: "p".to_string() }));
    assert_eq!(maybe_notify(&full, false), None);
    let mut only_topic = conf.clone();
    only_topic.payload = None;
    let b = Button { config: only_topic, playing: false, image: None, playlist_contents: None };
    assert_eq!(maybe_notify(&b, true), None);
    let mut only_payload = conf;
    only_payload.topic = None;
    let b = Button { config: only_payload, playing: false, image: None, playlist_contents: None };
    assert_eq!(maybe_notify(&b, true), None);
    assert_eq!(maybe_notify(&Button::default(), true), None);
}

#[test]
fn released_buttons_and_presses_beyond_the_table_ask_for_nothing() {
    let table = vec![sound_button(None)];
    assert!(handle_press(&table, &[0, 0, 0], &play_icon(), &stop_icon(), true, true).is_none());
    assert!(handle_press(&table, &[], &play_icon(), &stop_icon(), true, true).is_none());
    assert!(handle_press(&table, &[0, 1, 0], &play_icon(), &stop_icon(), true, true).is_none());
}

#[test]
fn failed_press_leaves_the_table_as_it_was() {
    let mut table = vec![sound_button(Some(Picture::black(2, 2))), sound_button(None)];
    let plan = handle_press(&table, &[0, 1], &play_icon(), &stop_icon(), true, false).unwrap();
    assert!(plan.playing);
    complete_press(&mut table, &plan, false);
    assert_eq!(flags(&table), vec![false, false]);
    assert_eq!(table[0].image, Some(Picture::black(2, 2)));
    complete_press(&mut table, &plan, true);
    assert_eq!(flags(&table), vec![false, true]);
    assert_eq!(table[0].image, Some(Picture::black(2, 2)));
    assert_eq!(table[1].config.sound, Some("a.mp3".to_string()));
}

#[test]
fn set_playing_changes_one_flag_only() {
    let mut table = vec![sound_button(None), sound_button(Some(Picture::black(1, 1))), Button::default()];
    set_playing(&mut table, 1, true);
    assert_eq!(flags(&table), vec![false, true, false]);
    assert_eq!(table[1].image, Some(Picture::black(1, 1)));
    assert_eq!(table[1].config.sound, Some("a.mp3".to_string()));
    set_playing(&mut table, 1, false);
    assert_eq!(flags(&table), vec![false, false, false]);
}

#[test]
fn poll_without_data_changes_nothing() {
    let mut playing = sound_button(Some(Picture::black(2, 2)));
    playing.playing = true;
    let table = vec![playing, sound_button(None)];
    let step = on_poll(&table, &Poll::NoData, &play_icon(), &stop_icon(), true, true);
    assert!(matches!(step, Step::Wait));
    assert_eq!(flags(&table), vec![true, false]);
    assert_eq!(table[0].image, Some(Picture::black(2, 2)));
}

#[test]
fn failed_poll_ends_the_loop() {
    let table = vec![sound_button(None)];
    let step = on_poll(&table, &Poll::Failed, &play_icon(), &stop_icon(), true, true);
    assert!(matches!(step, Step::Fatal));
}

#[test]
fn poll_with_a_press_asks_for_its_plan() {
    let table = vec![sound_button(None), sound_button(None)];
    let step = on_poll(&table, &Poll::Pressed(vec![0, 1]), &play_icon(), &stop_icon(), true, true);
    match step {
        Step::Act(plan) => {
            assert_eq!(plan.index, 1);
            assert!(plan.playing);
        }
        _ => panic!("a press must be acted on"),
    }
    let step = on_poll(&table, &Poll::Pressed(vec![0, 0]), &play_icon(), &stop_icon(), true, true);
    assert!(matches!(step, Step::Wait));
}

#[test]
fn redraw_composes_base_and_icon() {
    let base = solid(4, 4, [9, 9, 9, 255]);
    let play = play_icon();
    let stop = stop_icon();
    assert_eq!(redraw_image(Redraw::Keep, Some(&base), &play, &stop), None);
    assert_eq!(redraw_image(Redraw::BareBase, Some(&base), &play, &stop), Some(base.copy()));
    assert_eq!(redraw_image(Redraw::BareBase, None, &play, &stop), None);
    assert_eq!(redraw_image(Redraw::Overlay(Icon::Stop), Some(&base), &play, &stop), Some(base.overlay(&stop)));
    assert_eq!(redraw_image(Redraw::Overlay(Icon::Play), Some(&base), &play, &stop), Some(base.overlay(&play)));
    assert_eq!(redraw_image(Redraw::Overlay(Icon::Play), None, &play, &stop), Some(play.copy()));
    assert_eq!(redraw_image(Redraw::Bare(Icon::Stop), Some(&base), &play, &stop), Some(stop.copy()));
    assert_ne!(base.overlay(&stop), base.overlay(&play));
}

#[test]
fn redraw_of_a_button_follows_its_flag() {
    let mut b = sound_button(Some(Picture::black(2, 2)));
    assert_eq!(b.redraw(true), Redraw::Overlay(Icon::Stop));
    assert_eq!(b.redraw(false), Redraw::Overlay(Icon::Stop));
    b.playing = true;
    assert_eq!(b.redraw(true), Redraw::Overlay(Icon::Play));
    assert_eq!(b.redraw(false), Redraw::BareBase);
    assert_eq!(Button::default().redraw(true), Redraw::Keep);
}
