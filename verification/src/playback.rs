//! The playback controller: what a press does to a button's playback flag,
//! to the shared audio output, to the button's image, and which message it
//! sends.

use crate::button::{picture_view, Button};
use crate::picture::{overlay_of, Icon, Picture, PictureView};
use vstd::prelude::*;

verus! {

/// What a press asks of the shared audio output.
#[derive(Debug, PartialEq, Eq)]
pub enum AudioCommand {
    /// Leave the output as it is.
    Keep,
    /// Stop whatever plays.
    Stop,
    /// Stop whatever plays, then play `files` one after the other as one
    /// source, over and over if `repeat` is set.
    Start { files: Vec<String>, repeat: bool },
}

/// Which of the three an [`AudioCommand`] is.
#[derive(Clone, Copy, Debug, PartialEq, Eq, Structural)]
pub enum AudioKind {
    Keep,
    Stop,
    Start,
}

/// How a press changes what the button shows.
#[derive(Clone, Copy, Debug, PartialEq, Eq, Structural)]
pub enum Redraw {
    /// The button is not redrawn.
    Keep,
    /// The base image alone.
    BareBase,
    /// The base image under the icon.
    Overlay(Icon),
    /// The icon alone, for a button without a base image.
    Bare(Icon),
}

/// A message for the broker.
#[derive(Debug, PartialEq, Eq)]
pub struct Notice {
    pub topic: String,
    pub payload: String,
}

/// Everything a press on one button asks for. Nothing of it has happened
/// yet: the caller carries it out and then reports with `complete_press`.
#[derive(Debug)]
pub struct PressPlan {
    /// The pressed button.
    pub index: usize,
    /// The command for the shared audio output.
    pub audio: AudioCommand,
    /// The button's playback flag once the press is carried out.
    pub playing: bool,
    /// How the button's image changes.
    pub redraw: Redraw,
    /// The image to write to the button; `None` where it is not redrawn.
    pub image: Option<Picture>,
    /// The message to publish once the press is carried out.
    pub notice: Option<Notice>,
}

/// What a poll of the panel gave.
#[derive(Debug)]
pub enum Poll {
    /// The state of every button: 1 for a pressed one.
    Pressed(Vec<u8>),
    /// The timeout passed with no change.
    NoData,
    /// The panel could not be read.
    Failed,
}

/// What the run loop does after a poll.
#[derive(Debug)]
pub enum Step {
    /// Nothing: no flag, image or audio changes.
    Wait,
    /// Carry out the plan of a press.
    Act(PressPlan),
    /// Leave the loop with the panel's error.
    Fatal,
}

impl Redraw {
    /// The icon that the redrawn button shows, if it shows one.
    pub open spec fn icon(self) -> Option<Icon> {
        match self {
            Redraw::Overlay(icon) => Some(icon),
            Redraw::Bare(icon) => Some(icon),
            _ => None,
        }
    }
}

impl AudioCommand {
    /// Which of the three commands this is.
    pub open spec fn kind(self) -> AudioKind {
        match self {
            AudioCommand::Keep => AudioKind::Keep,
            AudioCommand::Stop => AudioKind::Stop,
            AudioCommand::Start { .. } => AudioKind::Start,
        }
    }
}

/// The picture of an icon.
pub open spec fn icon_picture(icon: Icon, play: PictureView, stop: PictureView) -> PictureView {
    match icon {
        Icon::Play => play,
        Icon::Stop => stop,
    }
}

/// The image that a redraw writes to a button with the base image `base`.
pub open spec fn redrawn(
    redraw: Redraw,
    base: Option<PictureView>,
    play: PictureView,
    stop: PictureView,
) -> Option<PictureView> {
    match redraw {
        Redraw::Keep => None,
        Redraw::BareBase => base,
        Redraw::Overlay(icon) => match base {
            Some(b) => Some(overlay_of(b, icon_picture(icon, play, stop))),
            None => Some(icon_picture(icon, play, stop)),
        },
        Redraw::Bare(icon) => Some(icon_picture(icon, play, stop)),
    }
}

impl Button {
    /// Whether a sound or a playlist is configured.
    pub open spec fn spec_has_audio(self) -> bool {
        self.playlist_contents.is_some() || self.config.sound.is_some()
    }

    /// The files a press plays, in order: the playlist's files where a
    /// playlist is configured, else the one sound file.
    pub open spec fn spec_source_files(self) -> Seq<String> {
        match self.playlist_contents {
            Some(files) => files@,
            None => match self.config.sound {
                Some(sound) => seq![sound],
                None => Seq::empty(),
            },
        }
    }

    /// The playback flag after a press: toggled where audio is configured.
    pub open spec fn spec_next_playing(self) -> bool {
        if self.spec_has_audio() {
            !self.playing
        } else {
            self.playing
        }
    }

    /// What a press asks of the audio output.
    pub open spec fn spec_audio_kind(self) -> AudioKind {
        if !self.spec_has_audio() {
            AudioKind::Keep
        } else if self.playing {
            AudioKind::Stop
        } else {
            AudioKind::Start
        }
    }

    /// How a press redraws the button.
    pub open spec fn spec_redraw(self, show_play_icon: bool) -> Redraw {
        if !self.spec_has_audio() {
            Redraw::Keep
        } else if self.playing {
            if self.image.is_none() {
                Redraw::Bare(Icon::Play)
            } else if show_play_icon {
                Redraw::Overlay(Icon::Play)
            } else {
                Redraw::BareBase
            }
        } else {
            if self.image.is_none() {
                Redraw::Bare(Icon::Stop)
            } else {
                Redraw::Overlay(Icon::Stop)
            }
        }
    }

    /// The message a press sends: topic and payload, where both are
    /// configured and the broker connection is live.
    pub open spec fn spec_notice(self, broker_live: bool) -> Option<(String, String)> {
        match (self.config.topic, self.config.payload) {
            (Some(topic), Some(payload)) => if broker_live {
                Some((topic, payload))
            } else {
                None
            },
            _ => None,
        }
    }

    /// The button with its playback flag set to `playing`.
    pub open spec fn with_playing(self, playing: bool) -> Button {
        Button {
            config: self.config,
            playing,
            image: self.image,
            playlist_contents: self.playlist_contents,
        }
    }

    /// Whether a sound or a playlist is configured.
    pub fn has_audio(&self) -> (yes: bool)
        ensures
            yes == self.spec_has_audio(),
    {
        self.playlist_contents.is_some() || self.config.sound.is_some()
    }

    /// How a press redraws the button.
    pub fn redraw(&self, show_play_icon: bool) -> (r: Redraw)
        ensures
            r == self.spec_redraw(show_play_icon),
    {
        if !self.has_audio() {
            Redraw::Keep
        } else if self.playing {
            if self.image.is_none() {
                Redraw::Bare(Icon::Play)
            } else if show_play_icon {
                Redraw::Overlay(Icon::Play)
            } else {
                Redraw::BareBase
            }
        } else {
            if self.image.is_none() {
                Redraw::Bare(Icon::Stop)
            } else {
                Redraw::Overlay(Icon::Stop)
            }
        }
    }

    /// The files a press plays, in playing order.
    pub fn source_files(&self) -> (files: Vec<String>)
        ensures
            files@ == self.spec_source_files(),
    {
        let mut files: Vec<String> = Vec::new();
        match &self.playlist_contents {
            Some(list) => {
                let mut i: usize = 0;
                while i < list.len()
                    invariant
                        i <= list.len(),
                        files@ == list@.take(i as int),
                    decreases list.len() - i,
                {
                    files.push(list[i].clone());
                    assert(list@.take(i + 1) =~= list@.take(i as int).push(list@[i as int]));
                    i += 1;
                }
                assert(list@.take(i as int) =~= list@);
            },
            None => match &self.config.sound {
                Some(sound) => {
                    files.push(sound.clone());
                    assert(files@ =~= seq![*sound]);
                },
                None => {
                    assert(files@ =~= Seq::<String>::empty());
                },
            },
        }
        files
    }

    /// What a press asks of the shared audio output.
    pub fn audio_command(&self) -> (cmd: AudioCommand)
        ensures
            cmd.kind() == self.spec_audio_kind(),
            cmd matches AudioCommand::Start { files, repeat } ==> files@
                == self.spec_source_files() && repeat == self.config.repeat,
    {
        if !self.has_audio() {
            AudioCommand::Keep
        } else if self.playing {
            AudioCommand::Stop
        } else {
            AudioCommand::Start { files: self.source_files(), repeat: self.config.repeat }
        }
    }
}

/// The image that a redraw writes, composed from the base image and the icons.
pub fn redraw_image(
    redraw: Redraw,
    base: Option<&Picture>,
    play_img: &Picture,
    stop_img: &Picture,
) -> (out: Option<Picture>)
    requires
        base matches Some(b) ==> b.wf(),
        play_img.wf(),
        stop_img.wf(),
    ensures
        picture_view(out) == redrawn(
            redraw,
            match base {
                Some(b) => Some(b@),
                None => None,
            },
            play_img@,
            stop_img@,
        ),
        out matches Some(p) ==> p.wf(),
{
    match redraw {
        Redraw::Keep => None,
        Redraw::BareBase => match base {
            Some(b) => Some(b.copy()),
            None => None,
        },
        Redraw::Overlay(icon) => {
            let icon_img = match icon {
                Icon::Play => play_img,
                Icon::Stop => stop_img,
            };
            match base {
                Some(b) => Some(b.overlay(icon_img)),
                None => Some(icon_img.copy()),
            }
        },
        Redraw::Bare(icon) => match icon {
            Icon::Play => Some(play_img.copy()),
            Icon::Stop => Some(stop_img.copy()),
        },
    }
}

/// The message that a press on `button` publishes, if it publishes one.
///
/// A message needs a topic, a payload and a live broker connection. An
/// inert slot has neither topic nor payload and sends nothing.
pub fn maybe_notify(button: &Button, broker_live: bool) -> (notice: Option<Notice>)
    ensures
        notice_view(notice) == button.spec_notice(broker_live),
{
    if !broker_live {
        return None;
    }
    match (&button.config.topic, &button.config.payload) {
        (Some(topic), Some(payload)) => Some(
            Notice { topic: topic.clone(), payload: payload.clone() },
        ),
        _ => None,
    }
}

/// Topic and payload of an optional message.
pub open spec fn notice_view(notice: Option<Notice>) -> Option<(String, String)> {
    match notice {
        Some(n) => Some((n.topic, n.payload)),
        None => None,
    }
}

/// Whether `i` is the first position of `states` that holds a 1.
pub open spec fn is_first_pressed(states: Seq<u8>, i: int) -> bool {
    &&& 0 <= i < states.len()
    &&& states[i] == 1
    &&& forall|j: int| 0 <= j < i ==> states[j] != 1
}

/// The first position of `states` that holds a 1, if any does.
pub open spec fn spec_pressed_idx(states: Seq<u8>) -> Option<int> {
    if exists|i: int| is_first_pressed(states, i) {
        Some(choose|i: int| is_first_pressed(states, i))
    } else {
        None
    }
}

/// The index of the pressed button: the first one whose state is 1.
pub fn pressed_idx(states: &[u8]) -> (res: Option<usize>)
    ensures
        match res {
            Some(i) => is_first_pressed(states@, i as int),
            None => forall|j: int| 0 <= j < states@.len() ==> states@[j] != 1,
        },
        res matches Some(i) ==> spec_pressed_idx(states@) == Some(i as int),
        res is None ==> spec_pressed_idx(states@).is_none(),
{
    let mut i: usize = 0;
    while i < states.len()
        invariant
            i <= states.len(),
            forall|j: int| 0 <= j < i ==> states@[j] != 1,
        decreases states.len() - i,
    {
        if states[i] == 1 {
            proof {
                let k = choose|k: int| is_first_pressed(states@, k);
                assert(is_first_pressed(states@, i as int));
                assert(k == i);
            }
            return Some(i);
        }
        i += 1;
    }
    None
}

/// Whether `plan` is what a press on the button `b` at position `index` asks for.
pub open spec fn plan_for(
    plan: PressPlan,
    index: int,
    b: Button,
    play: PictureView,
    stop: PictureView,
    show_play_icon: bool,
    broker_live: bool,
) -> bool {
    &&& plan.index == index
    &&& plan.audio.kind() == b.spec_audio_kind()
    &&& plan.audio matches AudioCommand::Start { files, repeat } ==> files@
        == b.spec_source_files() && repeat == b.config.repeat
    &&& plan.playing == b.spec_next_playing()
    &&& plan.redraw == b.spec_redraw(show_play_icon)
    &&& picture_view(plan.image) == redrawn(plan.redraw, b.base(), play, stop)
    &&& notice_view(plan.notice) == b.spec_notice(broker_live)
}

/// Decides what a press vector asks for.
///
/// The pressed button is the first one whose state is 1; with none, or with
/// one beyond the table, nothing happens. A button with a sound or a
/// playlist toggles: while playing, the audio output is stopped and the
/// button shows the play icon (or its bare base image where icons are not
/// shown); while idle, the output is stopped, the button's source is
/// started and the button shows the stop icon. A button without audio keeps
/// flag, image and output as they are. Either way the button's message is
/// sent where topic, payload and a live broker are there.
///
/// Only the pressed button's flag is concerned: the flag of another button
/// that counted as playing stays as it is.
pub fn handle_press(
    buttons: &Vec<Button>,
    pressed: &[u8],
    play_img: &Picture,
    stop_img: &Picture,
    show_play_icon: bool,
    broker_live: bool,
) -> (res: Option<PressPlan>)
    requires
        play_img.wf(),
        stop_img.wf(),
        forall|i: int| 0 <= i < buttons@.len() ==> (#[trigger] buttons@[i]).wf(),
    ensures
        match spec_pressed_idx(pressed@) {
            Some(i) => if i < buttons@.len() {
                res matches Some(plan) && plan_for(
                    plan,
                    i,
                    buttons@[i],
                    play_img@,
                    stop_img@,
                    show_play_icon,
                    broker_live,
                )
            } else {
                res is None
            },
            None => res is None,
        },
        res matches Some(plan) ==> (plan.image matches Some(p) ==> p.wf()),
{
    let index = match pressed_idx(pressed) {
        Some(index) => index,
        None => {
            return None;
        },
    };
    if index >= buttons.len() {
        return None;
    }
    let button = &buttons[index];
    let audio = button.audio_command();
    let playing = if button.has_audio() {
        !button.playing
    } else {
        button.playing
    };
    let redraw = button.redraw(show_play_icon);
    let image = redraw_image(redraw, button.image.as_ref(), play_img, stop_img);
    let notice = maybe_notify(button, broker_live);
    Some(PressPlan { index, audio, playing, redraw, image, notice })
}

/// Sets the playback flag of the button at `index`.
pub fn set_playing(buttons: &mut Vec<Button>, index: usize, playing: bool)
    requires
        index < old(buttons)@.len(),
    ensures
        final(buttons)@ == old(buttons)@.update(
            index as int,
            old(buttons)@[index as int].with_playing(playing),
        ),
{
    let button = buttons.remove(index);
    let Button { config, playing: _, image, playlist_contents } = button;
    buttons.insert(index, Button { config, playing, image, playlist_contents });
    assert(buttons@ =~= old(buttons)@.update(
        index as int,
        old(buttons)@[index as int].with_playing(playing),
    ));
}

/// Records how carrying out a plan went.
///
/// Where every step was performed, the pressed button takes the plan's
/// playback flag. Where a step failed (a file that would not decode, an
/// image that could not be written), the table stays exactly as it was.
/// Base images, configurations and playlists never change.
pub fn complete_press(buttons: &mut Vec<Button>, plan: &PressPlan, performed: bool)
    ensures
        performed && plan.index < old(buttons)@.len() ==> final(buttons)@ == old(
            buttons,
        )@.update(plan.index as int, old(buttons)@[plan.index as int].with_playing(plan.playing)),
        !(performed && plan.index < old(buttons)@.len()) ==> final(buttons)@ == old(buttons)@,
{
    if performed && plan.index < buttons.len() {
        set_playing(buttons, plan.index, plan.playing);
    }
}

/// Decides what the run loop does after a poll of the panel.
///
/// A timeout without data is no error and asks for nothing. A failed read
/// ends the loop. A press vector is handled as `handle_press` says.
pub fn on_poll(
    buttons: &Vec<Button>,
    poll: &Poll,
    play_img: &Picture,
    stop_img: &Picture,
    show_play_icon: bool,
    broker_live: bool,
) -> (step: Step)
    requires
        play_img.wf(),
        stop_img.wf(),
        forall|i: int| 0 <= i < buttons@.len() ==> (#[trigger] buttons@[i]).wf(),
    ensures
        poll is NoData ==> step is Wait,
        poll is Failed ==> step is Fatal,
        poll matches Poll::Pressed(states) ==> match spec_pressed_idx(states@) {
            Some(i) => if i < buttons@.len() {
                step matches Step::Act(plan) && plan_for(
                    plan,
                    i,
                    buttons@[i],
                    play_img@,
                    stop_img@,
                    show_play_icon,
                    broker_live,
                )
            } else {
                step is Wait
            },
            None => step is Wait,
        },
{
    match poll {
        Poll::NoData => Step::Wait,
        Poll::Failed => Step::Fatal,
        Poll::Pressed(states) => {
            match handle_press(
                buttons,
                states.as_slice(),
                play_img,
                stop_img,
                show_play_icon,
                broker_live,
            ) {
                Some(plan) => Step::Act(plan),
                None => Step::Wait,
            }
        },
    }
}

/// Pressing a button that has a sound or a playlist toggles its flag, and a
/// second press brings the flag back. The redrawn button shows the stop icon
/// exactly when the press leaves it playing; when the press leaves it idle
/// it shows the play icon or no icon.
pub proof fn lemma_press_toggles(b: Button, show_play_icon: bool)
    requires
        b.spec_has_audio(),
    ensures
        b.spec_next_playing() == !b.playing,
        b.with_playing(b.spec_next_playing()).spec_next_playing() == b.playing,
        b.with_playing(b.spec_next_playing()).with_playing(b.playing) == b,
        b.spec_redraw(show_play_icon).icon() == Some(Icon::Stop) <==> b.spec_next_playing(),
        !b.spec_next_playing() ==> b.spec_redraw(show_play_icon).icon() == Some(Icon::Play)
            || b.spec_redraw(show_play_icon).icon().is_none(),
        b.spec_audio_kind() == AudioKind::Start <==> b.spec_next_playing(),
        b.spec_audio_kind() == AudioKind::Stop <==> !b.spec_next_playing(),
{
}

/// A press on a button without sound and playlist changes neither its flag
/// nor its image nor the audio output.
pub proof fn lemma_silent_button_keeps_state(b: Button, show_play_icon: bool)
    requires
        !b.spec_has_audio(),
    ensures
        b.spec_next_playing() == b.playing,
        b.spec_redraw(show_play_icon) == Redraw::Keep,
        b.spec_audio_kind() == AudioKind::Keep,
{
}

} // verus!
