//! The button table: one entry per slot of the panel, built once from the
//! flattened configuration and the contents of the files it names.

use crate::geometry::ButtonConfig;
use crate::picture::{
    image_fails, overlay_of, prepare_image, prepared, prepared_view, AssetError, Picture,
    PictureView,
};
use crate::playlist::{
    load_playlist, loads, paths_view, playlist_fails, resolution_view, PlaylistError,
};
use vstd::prelude::*;

verus! {

/// One slot of the button table.
#[derive(Debug)]
pub struct Button {
    /// What the slot is configured to show and do; all empty for an inert slot.
    pub config: ButtonConfig,
    /// The playback flag: `true` while the slot counts as playing.
    pub playing: bool,
    /// The base image, fixed once the table is built.
    pub image: Option<Picture>,
    /// The audio files of the slot's playlist, resolved once.
    pub playlist_contents: Option<Vec<String>>,
}

/// The contents of the files that one slot's configuration names, as far as
/// they could be read.
#[derive(Debug)]
pub struct SlotFiles {
    /// The bytes of the image file.
    pub image: Option<Vec<u8>>,
    /// The bytes of the playlist file.
    pub playlist: Option<Vec<u8>>,
}

/// The mathematical value of a [`SlotFiles`].
pub struct SlotFilesView {
    pub image: Option<Seq<u8>>,
    pub playlist: Option<Seq<u8>>,
}

impl View for SlotFiles {
    type V = SlotFilesView;

    open spec fn view(&self) -> SlotFilesView {
        SlotFilesView {
            image: match self.image {
                Some(b) => Some(b@),
                None => None,
            },
            playlist: match self.playlist {
                Some(b) => Some(b@),
                None => None,
            },
        }
    }
}

/// What went wrong for a slot while the table was built.
#[derive(Clone, Copy, Debug, PartialEq, Eq, Structural)]
pub enum Cause {
    Image(AssetError),
    Playlist(PlaylistError),
}

/// The failure that stops the building of the table: the slot and the cause.
#[derive(Clone, Copy, Debug, PartialEq, Eq, Structural)]
pub struct StartupError {
    pub index: usize,
    pub cause: Cause,
}

impl ButtonConfig {
    /// Whether the configuration sets nothing.
    pub open spec fn is_empty(self) -> bool {
        &&& self.text.is_none()
        &&& self.text_size.is_none()
        &&& self.image.is_none()
        &&& self.sound.is_none()
        &&& !self.repeat
        &&& self.topic.is_none()
        &&& self.payload.is_none()
        &&& self.playlist.is_none()
    }
}

impl Button {
    /// Whether the slot is inert: nothing configured, idle, no image, no playlist.
    pub open spec fn is_inert(self) -> bool {
        &&& self.config.is_empty()
        &&& !self.playing
        &&& self.image.is_none()
        &&& self.playlist_contents.is_none()
    }

    /// The base image, if any, holds four bytes per pixel.
    pub open spec fn wf(self) -> bool {
        self.image matches Some(p) ==> p.wf()
    }

    /// The view of the base image.
    pub open spec fn base(self) -> Option<PictureView> {
        match self.image {
            Some(p) => Some(p@),
            None => None,
        }
    }

    /// The image the slot shows when the table is first displayed: the base
    /// image, under the play icon where the slot has a sound and icons are
    /// shown. A slot without a base image shows nothing.
    pub open spec fn spec_initial_image(self, play: PictureView, show_play_icon: bool) -> Option<
        PictureView,
    > {
        match self.image {
            Some(p) => if self.config.sound.is_some() && show_play_icon {
                Some(overlay_of(p@, play))
            } else {
                Some(p@)
            },
            None => None,
        }
    }

    /// The image to write for the slot when the table is first displayed.
    pub fn initial_image(&self, play_img: &Picture, show_play_icon: bool) -> (out: Option<
        Picture,
    >)
        requires
            self.wf(),
            play_img.wf(),
        ensures
            picture_view(out) == self.spec_initial_image(play_img@, show_play_icon),
            out matches Some(p) ==> p.wf(),
    {
        match &self.image {
            Some(img) => {
                if self.config.sound.is_some() && show_play_icon {
                    Some(img.overlay(play_img))
                } else {
                    Some(img.copy())
                }
            },
            None => None,
        }
    }
}

impl Default for Button {
    /// An inert slot.
    fn default() -> (b: Button)
        ensures
            b.is_inert(),
    {
        Button {
            config: ButtonConfig {
                text: None,
                text_size: None,
                image: None,
                sound: None,
                repeat: false,
                topic: None,
                payload: None,
                playlist: None,
            },
            playing: false,
            image: None,
            playlist_contents: None,
        }
    }
}

/// The view of an optional picture.
pub open spec fn picture_view(p: Option<Picture>) -> Option<PictureView> {
    match p {
        Some(p) => Some(p@),
        None => None,
    }
}

/// The files read for slot `i`; nothing where the list is too short.
pub open spec fn files_at(files: Seq<SlotFiles>, i: int) -> SlotFilesView {
    if 0 <= i < files.len() {
        files[i]@
    } else {
        SlotFilesView { image: None, playlist: None }
    }
}

/// Whether the slot configured by `conf` cannot be built from `files`.
pub open spec fn slot_fails(conf: Option<ButtonConfig>, files: SlotFilesView) -> bool {
    match conf {
        Some(c) => image_fails(c, files.image) || (c.playlist matches Some(p) && playlist_fails(
            p@,
            files.playlist,
        )),
        None => false,
    }
}

/// Whether `cause` is why the slot configured by `conf` cannot be built:
/// the image is prepared first, then the playlist is loaded.
pub open spec fn slot_cause(
    conf: Option<ButtonConfig>,
    files: SlotFilesView,
    width: nat,
    height: nat,
    cause: Cause,
) -> bool {
    match conf {
        Some(c) => if image_fails(c, files.image) {
            cause matches Cause::Image(e) && prepared(c, files.image, width, height, Err(e))
        } else {
            match c.playlist {
                Some(p) => cause matches Cause::Playlist(e) && loads(p@, files.playlist, Err(e)),
                None => false,
            }
        },
        None => false,
    }
}

/// Whether `b` is the table entry for the slot configured by `conf`.
pub open spec fn slot_built(
    conf: Option<ButtonConfig>,
    files: SlotFilesView,
    width: nat,
    height: nat,
    b: Button,
) -> bool {
    match conf {
        None => b.is_inert(),
        Some(c) => {
            &&& b.config == c
            &&& !b.playing
            &&& b.wf()
            &&& prepared(c, files.image, width, height, Ok(b.base()))
            &&& match c.playlist {
                None => b.playlist_contents.is_none(),
                Some(p) => b.playlist_contents matches Some(fs) && loads(
                    p@,
                    files.playlist,
                    Ok(paths_view(fs)),
                ),
            }
        },
    }
}

/// Builds the table entry of one slot.
pub fn build_button(
    conf: Option<ButtonConfig>,
    files: Option<&SlotFiles>,
    width: u32,
    height: u32,
) -> (res: Result<Button, Cause>)
    requires
        width * height * 4 <= usize::MAX,
    ensures
        res is Err <==> slot_fails(conf, files_of(files)),
        match res {
            Ok(b) => slot_built(conf, files_of(files), width as nat, height as nat, b),
            Err(cause) => slot_cause(conf, files_of(files), width as nat, height as nat, cause),
        },
{
    let conf = match conf {
        Some(c) => c,
        None => {
            return Ok(Button::default());
        },
    };
    let image_file = match files {
        Some(f) => f.image.as_ref(),
        None => None,
    };
    let playlist_file = match files {
        Some(f) => f.playlist.as_ref(),
        None => None,
    };
    let prepared_image = prepare_image(&conf, image_file, width, height);
    let image = match prepared_image {
        Ok(image) => image,
        Err(e) => {
            assert(prepared_view(prepared_image) == Err::<Option<PictureView>, AssetError>(e));
            return Err(Cause::Image(e));
        },
    };
    assert(prepared_view(prepared_image) == Ok::<Option<PictureView>, AssetError>(
        picture_view(image),
    ));
    let playlist_contents = match &conf.playlist {
        Some(path) => {
            let loaded = load_playlist(path.as_str(), playlist_file);
            match loaded {
                Ok(list) => {
                    assert(resolution_view(loaded) == Ok::<Seq<Seq<char>>, PlaylistError>(
                        paths_view(list),
                    ));
                    Some(list)
                },
                Err(e) => {
                    assert(resolution_view(loaded) == Err::<Seq<Seq<char>>, PlaylistError>(e));
                    return Err(Cause::Playlist(e));
                },
            }
        },
        None => None,
    };
    Ok(Button { config: conf, playing: false, image, playlist_contents })
}

/// The view of the files handed over for one slot; nothing where none were.
pub open spec fn files_of(files: Option<&SlotFiles>) -> SlotFilesView {
    match files {
        Some(f) => f@,
        None => SlotFilesView { image: None, playlist: None },
    }
}

/// Builds the button table from the flattened configuration.
///
/// `files[i]` holds what was read of the files that slot `i` names. Every
/// slot gets an entry, in order: an inert one where nothing is configured,
/// else the configuration with its base image at `width` by `height` pixels
/// and its resolved playlist, idle. The first slot whose image cannot be
/// prepared or whose playlist cannot be loaded stops the building: no table
/// is returned.
pub fn build_state(
    buttons: Vec<Option<ButtonConfig>>,
    files: &Vec<SlotFiles>,
    width: u32,
    height: u32,
) -> (res: Result<Vec<Button>, StartupError>)
    requires
        width * height * 4 <= usize::MAX,
    ensures
        res is Err <==> exists|i: int|
            0 <= i < buttons@.len() && slot_fails(#[trigger] buttons@[i], files_at(files@, i)),
        match res {
            Ok(table) => {
                &&& table@.len() == buttons@.len()
                &&& forall|i: int|
                    0 <= i < buttons@.len() ==> slot_built(
                        buttons@[i],
                        files_at(files@, i),
                        width as nat,
                        height as nat,
                        #[trigger] table@[i],
                    )
            },
            Err(e) => {
                &&& e.index < buttons@.len()
                &&& slot_cause(
                    buttons@[e.index as int],
                    files_at(files@, e.index as int),
                    width as nat,
                    height as nat,
                    e.cause,
                )
                &&& forall|j: int|
                    0 <= j < e.index ==> !slot_fails(#[trigger] buttons@[j], files_at(files@, j))
            },
        },
{
    let ghost all = buttons@;
    let mut rest = buttons;
    let mut table: Vec<Button> = Vec::new();
    let mut failure: Option<StartupError> = None;
    while rest.len() > 0
        invariant
            width * height * 4 <= usize::MAX,
            rest@.len() <= all.len(),
            rest@ == all.take(rest@.len() as int),
            failure is None ==> table@.len() == all.len() - rest@.len(),
            failure is None ==> forall|i: int|
                rest@.len() <= i < all.len() ==> slot_built(
                    all[i],
                    files_at(files@, i),
                    width as nat,
                    height as nat,
                    #[trigger] table@[i - rest@.len()],
                ),
            failure is None ==> forall|i: int|
                rest@.len() <= i < all.len() ==> !slot_fails(
                    #[trigger] all[i],
                    files_at(files@, i),
                ),
            failure matches Some(e) ==> {
                &&& rest@.len() <= e.index < all.len()
                &&& slot_fails(all[e.index as int], files_at(files@, e.index as int))
                &&& slot_cause(
                    all[e.index as int],
                    files_at(files@, e.index as int),
                    width as nat,
                    height as nat,
                    e.cause,
                )
                &&& forall|j: int|
                    rest@.len() <= j < e.index ==> !slot_fails(
                        #[trigger] all[j],
                        files_at(files@, j),
                    )
            },
        decreases rest@.len(),
    {
        let index = rest.len() - 1;
        let ghost before = rest@;
        let ghost old_table = table@;
        let conf = match rest.pop() {
            Some(conf) => conf,
            None => None,
        };
        assert(conf == all[index as int]);
        assert(rest@ =~= all.take(index as int));
        let slot_files = if index < files.len() {
            Some(&files[index])
        } else {
            None
        };
        assert(files_of(slot_files) == files_at(files@, index as int));
        match build_button(conf, slot_files, width, height) {
            Ok(button) => {
                if failure.is_none() {
                    table.insert(0, button);
                    assert forall|i: int| rest@.len() <= i < all.len() implies slot_built(
                        all[i],
                        files_at(files@, i),
                        width as nat,
                        height as nat,
                        #[trigger] table@[i - rest@.len()],
                    ) by {
                        if i > index {
                            assert(table@[i - rest@.len()] == old_table[i - before.len()]);
                        }
                    }
                }
            },
            Err(cause) => {
                failure = Some(StartupError { index, cause });
            },
        }
    }
    proof {
        if failure is None {
            assert forall|i: int| 0 <= i < all.len() implies slot_built(
                all[i],
                files_at(files@, i),
                width as nat,
                height as nat,
                #[trigger] table@[i],
            ) by {
                assert(table@[i] == table@[i - rest@.len()]);
            }
        }
    }
    match failure {
        Some(e) => Err(e),
        None => Ok(table),
    }
}

/// The images to write when the table is first displayed, one per slot:
/// `None` where the slot shows nothing.
pub fn display_buttons(state: &Vec<Button>, play_img: &Picture, show_play_icon: bool) -> (out:
    Vec<Option<Picture>>)
    requires
        play_img.wf(),
        forall|i: int| 0 <= i < state@.len() ==> (#[trigger] state@[i]).wf(),
    ensures
        out@.len() == state@.len(),
        forall|i: int|
            0 <= i < state@.len() ==> picture_view(#[trigger] out@[i])
                == state@[i].spec_initial_image(play_img@, show_play_icon),
{
    let mut out: Vec<Option<Picture>> = Vec::new();
    let mut i: usize = 0;
    while i < state.len()
        invariant
            i <= state.len(),
            play_img.wf(),
            forall|k: int| 0 <= k < state@.len() ==> (#[trigger] state@[k]).wf(),
            out@.len() == i,
            forall|k: int|
                0 <= k < i ==> picture_view(#[trigger] out@[k]) == state@[k].spec_initial_image(
                    play_img@,
                    show_play_icon,
                ),
        decreases state.len() - i,
    {
        out.push(state[i].initial_image(play_img, show_play_icon));
        i += 1;
    }
    out
}

} // verus!
