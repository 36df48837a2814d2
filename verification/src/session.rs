//! Portal sessions: what a client has asked for before it starts.

use crate::flags::flags_in;
use crate::flags::known_bits;
use crate::flags::BitFlag;
use crate::flags::BitFlags;
use crate::path::HandlePath;
use crate::remotedesktop::remote_removed;
use crate::remotedesktop::remove_remote_session;
use crate::remotedesktop::Desktop;
use crate::remotedesktop::RemoteSessionData;
use crate::restore::RemoteAuthorization;
use crate::text::same_text;
use vstd::prelude::*;

verus! {

/// A bit flag for the available sources to record.
#[derive(Debug, Clone, Copy, PartialEq, Eq, Structural)]
pub enum SourceType {
    /// A monitor.
    Monitor,
    /// A specific window
    Window,
    /// Virtual
    Virtual,
}

impl Default for SourceType {
    fn default() -> (r: Self)
        ensures
            r == SourceType::Monitor,
    {
        SourceType::Monitor
    }
}

impl BitFlag for SourceType {
    open spec fn mask(self) -> u32 {
        match self {
            SourceType::Monitor => 1,
            SourceType::Window => 2,
            SourceType::Virtual => 4,
        }
    }

    open spec fn all_mask() -> u32 {
        7
    }

    fn bit(self) -> (bit: u32) {
        match self {
            SourceType::Monitor => 1,
            SourceType::Window => 2,
            SourceType::Virtual => 4,
        }
    }

    fn all_bits() -> (bits: u32) {
        7
    }

    proof fn owns_one_known_bit(self) {
        assert(1u32 & 0 == 0 && 2u32 & 1 == 0 && 4u32 & 3 == 0 && 1u32 & !7u32 == 0 && 2u32 & !7u32
            == 0 && 4u32 & !7u32 == 0) by (bit_vector);
    }

    proof fn owns_bit_alone(self, other: Self) {
        assert(1u32 & 1 == 1 && 2u32 & 2 == 2 && 4u32 & 4 == 4 && 1u32 & 2 == 0 && 1u32 & 4 == 0
            && 2u32 & 1 == 0 && 2u32 & 4 == 0 && 4u32 & 1 == 0 && 4u32 & 2 == 0) by (bit_vector);
    }

    proof fn flags_fix_the_word(a: u32, b: u32) {
        assert((a & SourceType::Monitor.mask() != 0) == (b & SourceType::Monitor.mask() != 0));
        assert((a & SourceType::Window.mask() != 0) == (b & SourceType::Window.mask() != 0));
        assert((a & SourceType::Virtual.mask() != 0) == (b & SourceType::Virtual.mask() != 0));
        assert(a == b) by (bit_vector)
            requires
                a & !7u32 == 0,
                b & !7u32 == 0,
                (a & 1 != 0) == (b & 1 != 0),
                (a & 2 != 0) == (b & 2 != 0),
                (a & 4 != 0) == (b & 4 != 0),
        ;
    }
}

/// A bit flag for the devices that a client can control.
#[derive(Debug, Clone, Copy, PartialEq, Eq, Structural)]
pub enum DeviceType {
    /// Key presses.
    Keyboard,
    /// Pointer motion, buttons and scrolling.
    Pointer,
    /// Touch points.
    TouchScreen,
}

impl Default for DeviceType {
    fn default() -> (r: Self)
        ensures
            r == DeviceType::Keyboard,
    {
        DeviceType::Keyboard
    }
}

impl BitFlag for DeviceType {
    open spec fn mask(self) -> u32 {
        match self {
            DeviceType::Keyboard => 1,
            DeviceType::Pointer => 2,
            DeviceType::TouchScreen => 4,
        }
    }

    open spec fn all_mask() -> u32 {
        7
    }

    fn bit(self) -> (bit: u32) {
        match self {
            DeviceType::Keyboard => 1,
            DeviceType::Pointer => 2,
            DeviceType::TouchScreen => 4,
        }
    }

    fn all_bits() -> (bits: u32) {
        7
    }

    proof fn owns_one_known_bit(self) {
        assert(1u32 & 0 == 0 && 2u32 & 1 == 0 && 4u32 & 3 == 0 && 1u32 & !7u32 == 0 && 2u32 & !7u32
            == 0 && 4u32 & !7u32 == 0) by (bit_vector);
    }

    proof fn owns_bit_alone(self, other: Self) {
        assert(1u32 & 1 == 1 && 2u32 & 2 == 2 && 4u32 & 4 == 4 && 1u32 & 2 == 0 && 1u32 & 4 == 0
            && 2u32 & 1 == 0 && 2u32 & 4 == 0 && 4u32 & 1 == 0 && 4u32 & 2 == 0) by (bit_vector);
    }

    proof fn flags_fix_the_word(a: u32, b: u32) {
        assert((a & DeviceType::Keyboard.mask() != 0) == (b & DeviceType::Keyboard.mask() != 0));
        assert((a & DeviceType::Pointer.mask() != 0) == (b & DeviceType::Pointer.mask() != 0));
        assert((a & DeviceType::TouchScreen.mask() != 0) == (b & DeviceType::TouchScreen.mask()
            != 0));
        assert(a == b) by (bit_vector)
            requires
                a & !7u32 == 0,
                b & !7u32 == 0,
                (a & 1 != 0) == (b & 1 != 0),
                (a & 2 != 0) == (b & 2 != 0),
                (a & 4 != 0) == (b & 4 != 0),
        ;
    }
}

/// Every device type.
pub open spec fn every_device() -> Set<DeviceType> {
    Set::new(|device: DeviceType| true)
}

/// The set of all device types.
pub fn all_devices() -> (r: BitFlags<DeviceType>)
    ensures
        r@ == every_device(),
{
    let r = BitFlags::from_flag(DeviceType::Keyboard).with(DeviceType::Pointer).with(
        DeviceType::TouchScreen,
    );
    assert(r@ =~= every_device());
    r
}

/// The one word of known bits that holds every device type.
pub(crate) proof fn lemma_every_device_bits(bits: u32)
    requires
        known_bits::<DeviceType>(bits),
        flags_in::<DeviceType>(bits) == every_device(),
    ensures
        bits == 7,
{
    assert(every_device().contains(DeviceType::Keyboard));
    assert(every_device().contains(DeviceType::Pointer));
    assert(every_device().contains(DeviceType::TouchScreen));
    assert(bits == 7) by (bit_vector)
        requires
            bits & !7u32 == 0,
            bits & 1 != 0,
            bits & 2 != 0,
            bits & 4 != 0,
    ;
}

/// A bit flag for the possible cursor modes.
#[derive(Debug, Clone, Copy, PartialEq, Eq, Structural)]
pub enum CursorMode {
    /// The cursor is not part of the screen cast stream.
    Hidden,
    /// The cursor is embedded as part of the stream buffers.
    Embedded,
    /// The cursor is not part of the screen cast stream, but sent as PipeWire
    /// stream metadata.
    Metadata,
}

impl Default for CursorMode {
    fn default() -> (r: Self)
        ensures
            r == CursorMode::Hidden,
    {
        CursorMode::Hidden
    }
}

impl CursorMode {
    /// Whether the cursor is shown to the viewer.
    pub fn show_cursor(&self) -> (r: bool)
        ensures
            r == (*self != CursorMode::Hidden),
    {
        !matches!(self, CursorMode::Hidden)
    }
}

/// Which portal a session belongs to.
#[derive(Debug, Clone, Copy, PartialEq, Eq, Structural)]
pub enum SessionType {
    ScreenCast,
    Remote,
    InputCapture,
}

/// Persistence mode for a session, from the least to the most lasting.
#[derive(Debug, Clone, Copy, PartialEq, Eq, Structural)]
pub enum PersistMode {
    /// Do not persist.
    DoNot,
    /// Persist while the application is running.
    Application,
    /// Persist until explicitly revoked.
    ExplicitlyRevoked,
}

impl Default for PersistMode {
    fn default() -> (r: Self)
        ensures
            r == PersistMode::DoNot,
    {
        PersistMode::DoNot
    }
}

impl PersistMode {
    /// The number that stands for the mode on the bus; a more lasting mode has a larger one.
    pub open spec fn number(self) -> u32 {
        match self {
            PersistMode::DoNot => 0,
            PersistMode::Application => 1,
            PersistMode::ExplicitlyRevoked => 2,
        }
    }

    /// The number that stands for the mode on the bus.
    pub fn value(self) -> (r: u32)
        ensures
            r == self.number(),
    {
        match self {
            PersistMode::DoNot => 0,
            PersistMode::Application => 1,
            PersistMode::ExplicitlyRevoked => 2,
        }
    }
}

/// What a client selects for the screen-cast part of a session.
#[derive(Debug)]
pub struct SelectSourcesOptions {
    /// What types of content to record.
    pub types: Option<BitFlags<SourceType>>,
    /// Whether to allow selecting multiple sources.
    pub multiple: Option<bool>,
    /// Determines how the cursor will be drawn in the screen cast stream.
    pub cursor_mode: Option<CursorMode>,
    /// How long the selection persists.
    pub persist_mode: Option<PersistMode>,
}

impl Default for SelectSourcesOptions {
    fn default() -> (r: Self)
        ensures
            r.types is None,
            r.multiple is None,
            r.cursor_mode is None,
            r.persist_mode is None,
    {
        SelectSourcesOptions { types: None, multiple: None, cursor_mode: None, persist_mode: None }
    }
}

/// A session and what its client has selected so far.
#[derive(Debug)]
pub struct Session {
    pub session_type: SessionType,
    pub handle_path: HandlePath,
    pub source_type: BitFlags<SourceType>,
    pub multiple: bool,
    pub cursor_mode: CursorMode,
    pub persist_mode: PersistMode,
    pub device_type: BitFlags<DeviceType>,
    pub screen_share_enabled: bool,
    pub clipboard_requested: bool,
    pub remote_restore: Option<RemoteAuthorization>,
}

impl Clone for Session {
    fn clone(&self) -> (r: Self)
        ensures
            r == *self,
    {
        Session {
            session_type: self.session_type,
            handle_path: self.handle_path.clone(),
            source_type: self.source_type,
            multiple: self.multiple,
            cursor_mode: self.cursor_mode,
            persist_mode: self.persist_mode,
            device_type: self.device_type,
            screen_share_enabled: self.screen_share_enabled,
            clipboard_requested: self.clipboard_requested,
            remote_restore: match &self.remote_restore {
                Some(authorization) => Some(authorization.clone()),
                None => None,
            },
        }
    }
}

impl Session {
    /// Whether nothing has been selected for the session yet.
    pub open spec fn is_new(self, path: HandlePath, session_type: SessionType) -> bool {
        &&& self.session_type == session_type
        &&& self.handle_path == path
        &&& self.source_type@ == Set::<SourceType>::empty().insert(SourceType::Monitor)
        &&& !self.multiple
        &&& self.cursor_mode == CursorMode::Hidden
        &&& self.persist_mode == PersistMode::DoNot
        &&& self.device_type@ == Set::<DeviceType>::empty()
        &&& !self.screen_share_enabled
        &&& !self.clipboard_requested
        &&& self.remote_restore is None
    }

    /// A session of which nothing has been selected yet.
    pub fn new(path: HandlePath, session_type: SessionType) -> (r: Self)
        ensures
            r.is_new(path, session_type),
    {
        Session {
            session_type,
            handle_path: path,
            source_type: BitFlags::from_flag(SourceType::Monitor),
            multiple: false,
            cursor_mode: CursorMode::Hidden,
            persist_mode: PersistMode::DoNot,
            device_type: BitFlags::empty(),
            screen_share_enabled: false,
            clipboard_requested: false,
            remote_restore: None,
        }
    }

    /// The version of the session interface.
    pub fn version(&self) -> (r: u32)
        ensures
            r == 2,
    {
        2
    }

    /// The session after its client has selected screen-cast sources. Only a screen-cast
    /// session takes its persistence from there.
    pub open spec fn with_screencast_options(self, options: SelectSourcesOptions) -> Session {
        Session {
            screen_share_enabled: true,
            source_type: match options.types {
                Some(types) => types,
                None => self.source_type,
            },
            multiple: options.multiple == Some(true),
            cursor_mode: match options.cursor_mode {
                Some(mode) => mode,
                None => self.cursor_mode,
            },
            persist_mode: if self.session_type == SessionType::ScreenCast {
                match options.persist_mode {
                    Some(mode) => mode,
                    None => self.persist_mode,
                }
            } else {
                self.persist_mode
            },
            ..self
        }
    }

    /// Records what the client selected for the screen-cast part.
    pub fn set_screencast_options(&mut self, options: SelectSourcesOptions)
        ensures
            *final(self) == old(self).with_screencast_options(options),
    {
        self.screen_share_enabled = true;
        if let Some(types) = options.types {
            self.source_type = types;
        }
        self.multiple = match options.multiple {
            Some(content) => content,
            None => false,
        };
        if let Some(mode) = options.cursor_mode {
            self.cursor_mode = mode;
        }
        if self.session_type == SessionType::ScreenCast {
            if let Some(mode) = options.persist_mode {
                self.persist_mode = mode;
            }
        }
    }

    /// Records what the client selected for the remote-control part. Without a selection of
    /// devices the client gets all of them; what it asked to restore before is forgotten.
    pub fn set_remote_options(
        &mut self,
        types: Option<BitFlags<DeviceType>>,
        persist_mode: Option<PersistMode>,
        remote_restore: Option<RemoteAuthorization>,
    )
        ensures
            final(self).device_type@ == (match types {
                Some(types) => types@,
                None => every_device(),
            }),
            *final(self) == (Session {
                remote_restore,
                device_type: final(self).device_type,
                persist_mode: match persist_mode {
                    Some(mode) => mode,
                    None => old(self).persist_mode,
                },
                ..*old(self)
            }),
    {
        self.remote_restore = remote_restore;
        self.device_type = match types {
            Some(types) => types,
            None => all_devices(),
        };
        if let Some(mode) = persist_mode {
            self.persist_mode = mode;
        }
    }
}

/// The paths of the sessions, in their order.
pub open spec fn session_paths(sessions: Seq<Session>) -> Seq<Seq<char>> {
    sessions.map_values(|session: Session| session.handle_path@)
}

/// The place of the first session whose path is `path`.
pub fn position(sessions: &Vec<Session>, path: &HandlePath) -> (r: Option<usize>)
    ensures
        match r {
            Some(index) => session_paths(sessions@).index_of_first(path@) == Some(index as int),
            None => session_paths(sessions@).index_of_first(path@) is None,
        },
{
    let ghost paths = session_paths(sessions@);
    proof {
        paths.index_of_first_ensures(path@);
    }
    let mut i: usize = 0;
    while i < sessions.len()
        invariant
            i <= sessions@.len(),
            paths == session_paths(sessions@),
            forall|j: int| 0 <= j < i ==> paths[j] != path@,
            match paths.index_of_first(path@) {
                Some(index) => {
                    &&& 0 <= index < paths.len()
                    &&& paths[index] == path@
                    &&& forall|j: int| 0 <= j < index < paths.len() ==> paths[j] != path@
                },
                None => !paths.contains(path@),
            },
        decreases sessions@.len() - i,
    {
        if same_text(sessions[i].handle_path.as_str(), path.as_str()) {
            assert(paths[i as int] == path@);
            return Some(i);
        }
        i = i + 1;
    }
    None
}

/// Adds a session behind the others.
pub fn append_session(sessions: &mut Vec<Session>, session: Session)
    ensures
        final(sessions)@ == old(sessions)@.push(session),
{
    sessions.push(session)
}

/// What has to be ended along with a session.
pub struct Teardown<P: Desktop> {
    /// The handle under which screen casts and clipboards of the session are kept.
    pub session_handle: String,
    /// What the session had started.
    pub remote: Option<RemoteSessionData<P>>,
}

/// Takes a session away from the others, and with it what it has started.
pub fn remove_session<P: Desktop>(
    sessions: &mut Vec<Session>,
    remotes: &mut Vec<RemoteSessionData<P>>,
    session: &Session,
) -> (r: Option<Teardown<P>>)
    ensures
        match session_paths(old(sessions)@).index_of_first(session.handle_path@) {
            Some(index) => {
                &&& 0 <= index < old(sessions)@.len()
                &&& final(sessions)@ == old(sessions)@.remove(index)
                &&& r matches Some(teardown) && {
                    &&& teardown.session_handle@ == session.handle_path@
                    &&& remote_removed(
                        old(remotes)@,
                        session.handle_path@,
                        final(remotes)@,
                        teardown.remote,
                    )
                }
            },
            None => {
                &&& r is None
                &&& final(sessions)@ == old(sessions)@
                &&& final(remotes)@ == old(remotes)@
            },
        },
{
    match position(sessions, &session.handle_path) {
        Some(index) => {
            proof {
                session_paths(sessions@).index_of_first_ensures(session.handle_path@);
            }
            let session_handle = session.handle_path.to_text();
            let remote = remove_remote_session(remotes, session_handle.as_str());
            sessions.remove(index);
            Some(Teardown { session_handle, remote })
        },
        None => None,
    }
}

/// Selecting screen-cast sources leaves the persistence of a remote-desktop session as it was, and
/// everything that belongs to remote control.
pub proof fn screencast_options_keep_remote_options(
    session: Session,
    options: SelectSourcesOptions,
)
    ensures
        session.session_type != SessionType::ScreenCast ==> session.with_screencast_options(
            options,
        ).persist_mode == session.persist_mode,
        session.with_screencast_options(options).device_type == session.device_type,
        session.with_screencast_options(options).remote_restore == session.remote_restore,
        session.with_screencast_options(options).clipboard_requested
            == session.clipboard_requested,
        session.with_screencast_options(options).handle_path == session.handle_path,
        session.with_screencast_options(options).session_type == session.session_type,
        session.with_screencast_options(options).screen_share_enabled,
{
}

/// A session that is added under a path which no other has is the one found by that path, and
/// taking it away gives the sessions before it was added.
pub proof fn removing_undoes_appending(before: Seq<Session>, session: Session)
    requires
        !session_paths(before).contains(session.handle_path@),
    ensures
        session_paths(before.push(session)).index_of_first(session.handle_path@) == Some(
            before.len() as int,
        ),
        before.push(session).remove(before.len() as int) == before,
{
    let paths = session_paths(before.push(session));
    paths.index_of_first_ensures(session.handle_path@);
    assert(paths[before.len() as int] == session.handle_path@);
    let index = paths.index_of_first(session.handle_path@)->0;
    if index < before.len() {
        assert(session_paths(before)[index] == session.handle_path@);
    }
    assert(before.push(session).remove(before.len() as int) =~= before);
}

} // verus!
