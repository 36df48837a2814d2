//! The remote-desktop interface of the portal.

use crate::error::PortalError;
use crate::flags::flags_in;
use crate::flags::BitFlags;
use crate::input::InputRequest;
use crate::path::HandlePath;
use crate::remotedesktop::delivers;
use crate::remotedesktop::input_changes;
use crate::remotedesktop::notify_input_event;
use crate::remotedesktop::remote_handles;
use crate::remotedesktop::remote_position;
use crate::remotedesktop::Delivery;
use crate::remotedesktop::Desktop;
use crate::remotedesktop::RemoteSessionData;
use crate::eis_server::EisServerMsg;
use crate::restore::parse_restore_data;
use crate::restore::restored;
use crate::restore::RestoreData;
use crate::session::all_devices;
use crate::session::append_session;
use crate::session::every_device;
use crate::session::lemma_every_device_bits;
use crate::session::position;
use crate::session::session_paths;
use crate::session::DeviceType;
use crate::session::PersistMode;
use crate::session::Session;
use crate::session::SessionType;
use crate::start::begin_start;
use crate::start::begins;
use crate::start::StartStep;
use crate::variant::held_flag;
use crate::variant::option_bool;
use crate::variant::Options;
use vstd::prelude::*;

verus! {

/// The answer to a portal call.
#[derive(Debug, PartialEq, Eq)]
pub enum PortalResponse<T> {
    /// The call succeeded.
    Success(T),
    /// The call ended in some other way.
    Other,
}

/// What a client is told about a session that it creates.
#[derive(Debug, PartialEq, Eq)]
pub struct SessionCreateResult {
    pub handle_token: String,
}

/// What a client selects for the remote-control part of a session.
#[derive(Debug)]
pub struct SelectDevicesOptions {
    /// The device types to request remote controlling of. Default is all.
    pub types: Option<BitFlags<DeviceType>>,
    /// The token of an earlier grant.
    pub restore_data: Option<RestoreData>,
    /// How long the grant shall persist.
    pub persist_mode: Option<PersistMode>,
}

impl Default for SelectDevicesOptions {
    fn default() -> (r: Self)
        ensures
            r.types is None,
            r.restore_data is None,
            r.persist_mode is None,
    {
        SelectDevicesOptions { types: None, restore_data: None, persist_mode: None }
    }
}

/// Whether `after` is the session `before` once its client has selected `options`.
pub open spec fn selects(before: Session, options: SelectDevicesOptions, after: Session) -> bool {
    &&& after == (Session {
        remote_restore: after.remote_restore,
        device_type: after.device_type,
        persist_mode: match options.persist_mode {
            Some(mode) => mode,
            None => before.persist_mode,
        },
        ..before
    })
    &&& after.device_type@ == (match options.types {
        Some(types) => types@,
        None => every_device(),
    })
    &&& match options.restore_data {
        Some(data) => match after.remote_restore {
            Some(authorization) => restored(data) == Some(authorization@),
            None => restored(data) is None,
        },
        None => after.remote_restore is None,
    }
}

/// The remote-desktop interface of the portal.
#[derive(Debug, Clone, Copy)]
pub struct RemoteDesktopBackend;

impl RemoteDesktopBackend {
    /// The version of the interface.
    pub fn version(&self) -> (r: u32)
        ensures
            r == 2,
    {
        2
    }

    /// The devices that clients can ask for.
    pub fn available_device_types(&self) -> (r: u32)
        ensures
            r == 7,
            flags_in::<DeviceType>(r) == every_device(),
    {
        let bits: u32 = all_devices().bits();
        proof {
            lemma_every_device_bits(bits);
        }
        bits
    }

    /// Creates a session of which nothing has been selected yet.
    pub fn create_session(&self, sessions: &mut Vec<Session>, session_handle: HandlePath) -> (r:
        PortalResponse<SessionCreateResult>)
        ensures
            final(sessions)@.len() == old(sessions)@.len() + 1,
            final(sessions)@.drop_last() == old(sessions)@,
            final(sessions)@.last().is_new(session_handle, SessionType::Remote),
            r matches PortalResponse::Success(result) && result.handle_token@ == session_handle@,
    {
        let handle_token = session_handle.to_text();
        append_session(sessions, Session::new(session_handle, SessionType::Remote));
        assert(sessions@.drop_last() =~= old(sessions)@);
        PortalResponse::Success(SessionCreateResult { handle_token })
    }

    /// Records what a client selects for the remote-control part of a session. A token that
    /// cannot be used is ignored.
    pub fn select_devices(
        &self,
        sessions: &mut Vec<Session>,
        session_handle: &HandlePath,
        options: SelectDevicesOptions,
    ) -> (r: PortalResponse<()>)
        ensures
            match session_paths(old(sessions)@).index_of_first(session_handle@) {
                Some(index) => if old(sessions)@[index].session_type == SessionType::Remote {
                    &&& r == PortalResponse::Success(())
                    &&& 0 <= index < old(sessions)@.len()
                    &&& final(sessions)@ == old(sessions)@.update(index, final(sessions)@[index])
                    &&& selects(old(sessions)@[index], options, final(sessions)@[index])
                } else {
                    r is Other && final(sessions)@ == old(sessions)@
                },
                None => r is Other && final(sessions)@ == old(sessions)@,
            },
    {
        let remote_restore = match options.restore_data {
            Some(data) => parse_restore_data(data),
            None => None,
        };
        match position(sessions, session_handle) {
            Some(index) => {
                proof {
                    session_paths(sessions@).index_of_first_ensures(session_handle@);
                }
                if sessions[index].session_type != SessionType::Remote {
                    return PortalResponse::Other;
                }
                sessions[index].set_remote_options(
                    options.types,
                    options.persist_mode,
                    remote_restore,
                );
                PortalResponse::Success(())
            },
            None => PortalResponse::Other,
        }
    }

    /// Begins the start of a session.
    pub fn start<P: Desktop>(
        &self,
        sessions: &Vec<Session>,
        remotes: &Vec<RemoteSessionData<P>>,
        session_handle: &HandlePath,
    ) -> (r: StartStep)
        ensures
            begins(sessions@, remotes@, session_handle@, r),
    {
        begin_start(sessions, remotes, session_handle)
    }

    /// Takes a relative pointer motion.
    pub fn notify_pointer_motion<P: Desktop, F: Fn(P::Coord, P::Coord) -> P::Coord>(
        &self,
        remotes: &mut Vec<RemoteSessionData<P>>,
        session_handle: &HandlePath,
        dx: P::Coord,
        dy: P::Coord,
        plus: &F,
    ) -> (r: Result<Option<Delivery<P::Coord>>, PortalError>)
        requires
            forall|a: P::Coord, b: P::Coord| call_requires(*plus, (a, b)),
        ensures
            delivers(
                old(remotes)@,
                session_handle@,
                InputRequest::PointerMotion { dx, dy },
                r,
            ),
            input_changes(
                old(remotes)@,
                final(remotes)@,
                session_handle@,
                InputRequest::PointerMotion { dx, dy },
                *plus,
            ),
    {
        notify_input_event(
            remotes,
            session_handle,
            InputRequest::PointerMotion { dx, dy },
            plus,
        )
    }

    /// Takes an absolute pointer motion.
    pub fn notify_pointer_motion_absolute<P: Desktop, F: Fn(P::Coord, P::Coord) -> P::Coord>(
        &self,
        remotes: &mut Vec<RemoteSessionData<P>>,
        session_handle: &HandlePath,
        x: P::Coord,
        y: P::Coord,
        plus: &F,
    ) -> (r: Result<Option<Delivery<P::Coord>>, PortalError>)
        requires
            forall|a: P::Coord, b: P::Coord| call_requires(*plus, (a, b)),
        ensures
            delivers(
                old(remotes)@,
                session_handle@,
                InputRequest::PointerMotionAbsolute { x, y },
                r,
            ),
            input_changes(
                old(remotes)@,
                final(remotes)@,
                session_handle@,
                InputRequest::PointerMotionAbsolute { x, y },
                *plus,
            ),
    {
        notify_input_event(
            remotes,
            session_handle,
            InputRequest::PointerMotionAbsolute { x, y },
            plus,
        )
    }

    /// Takes a press or release of a pointer button.
    pub fn notify_pointer_button<P: Desktop, F: Fn(P::Coord, P::Coord) -> P::Coord>(
        &self,
        remotes: &mut Vec<RemoteSessionData<P>>,
        session_handle: &HandlePath,
        button: i32,
        state: u32,
        plus: &F,
    ) -> (r: Result<Option<Delivery<P::Coord>>, PortalError>)
        requires
            forall|a: P::Coord, b: P::Coord| call_requires(*plus, (a, b)),
        ensures
            delivers(
                old(remotes)@,
                session_handle@,
                InputRequest::PointerButton { button, state },
                r,
            ),
            input_changes(
                old(remotes)@,
                final(remotes)@,
                session_handle@,
                InputRequest::PointerButton { button, state },
                *plus,
            ),
    {
        notify_input_event(
            remotes,
            session_handle,
            InputRequest::PointerButton { button, state },
            plus,
        )
    }

    /// Takes smooth scrolling. The option `finish` says whether the scrolling ends with it.
    pub fn notify_pointer_axis<P: Desktop, F: Fn(P::Coord, P::Coord) -> P::Coord>(
        &self,
        remotes: &mut Vec<RemoteSessionData<P>>,
        session_handle: &HandlePath,
        options: &Options,
        dx: P::Coord,
        dy: P::Coord,
        plus: &F,
    ) -> (r: Result<Option<Delivery<P::Coord>>, PortalError>)
        requires
            forall|a: P::Coord, b: P::Coord| call_requires(*plus, (a, b)),
        ensures
            delivers(
                old(remotes)@,
                session_handle@,
                InputRequest::PointerAxis {
                    dx,
                    dy,
                    finish: options@.contains_key("finish"@) && held_flag(options@["finish"@])
                        == Some(true),
                },
                r,
            ),
            input_changes(
                old(remotes)@,
                final(remotes)@,
                session_handle@,
                InputRequest::PointerAxis {
                    dx,
                    dy,
                    finish: options@.contains_key("finish"@) && held_flag(options@["finish"@])
                        == Some(true),
                },
                *plus,
            ),
    {
        notify_input_event(
            remotes,
            session_handle,
            InputRequest::PointerAxis { dx, dy, finish: option_bool(options, "finish") },
            plus,
        )
    }

    /// Takes scrolling in steps.
    pub fn notify_pointer_axis_discrete<P: Desktop, F: Fn(P::Coord, P::Coord) -> P::Coord>(
        &self,
        remotes: &mut Vec<RemoteSessionData<P>>,
        session_handle: &HandlePath,
        axis: u32,
        steps: i32,
        plus: &F,
    ) -> (r: Result<Option<Delivery<P::Coord>>, PortalError>)
        requires
            forall|a: P::Coord, b: P::Coord| call_requires(*plus, (a, b)),
        ensures
            delivers(
                old(remotes)@,
                session_handle@,
                InputRequest::PointerAxisDiscrete { axis, steps },
                r,
            ),
            input_changes(
                old(remotes)@,
                final(remotes)@,
                session_handle@,
                InputRequest::PointerAxisDiscrete { axis, steps },
                *plus,
            ),
    {
        notify_input_event(
            remotes,
            session_handle,
            InputRequest::PointerAxisDiscrete { axis, steps },
            plus,
        )
    }

    /// Takes a press or release of a key, by its code.
    pub fn notify_keyboard_keycode<P: Desktop, F: Fn(P::Coord, P::Coord) -> P::Coord>(
        &self,
        remotes: &mut Vec<RemoteSessionData<P>>,
        session_handle: &HandlePath,
        keycode: i32,
        state: u32,
        plus: &F,
    ) -> (r: Result<Option<Delivery<P::Coord>>, PortalError>)
        requires
            forall|a: P::Coord, b: P::Coord| call_requires(*plus, (a, b)),
        ensures
            delivers(
                old(remotes)@,
                session_handle@,
                InputRequest::KeyboardKeycode { keycode, state },
                r,
            ),
            input_changes(
                old(remotes)@,
                final(remotes)@,
                session_handle@,
                InputRequest::KeyboardKeycode { keycode, state },
                *plus,
            ),
    {
        notify_input_event(
            remotes,
            session_handle,
            InputRequest::KeyboardKeycode { keycode, state },
            plus,
        )
    }

    /// Takes a press or release of a key, by its symbol.
    pub fn notify_keyboard_keysym<P: Desktop, F: Fn(P::Coord, P::Coord) -> P::Coord>(
        &self,
        remotes: &mut Vec<RemoteSessionData<P>>,
        session_handle: &HandlePath,
        keysym: i32,
        state: u32,
        plus: &F,
    ) -> (r: Result<Option<Delivery<P::Coord>>, PortalError>)
        requires
            forall|a: P::Coord, b: P::Coord| call_requires(*plus, (a, b)),
        ensures
            delivers(
                old(remotes)@,
                session_handle@,
                InputRequest::KeyboardKeysym { keysym, state },
                r,
            ),
            input_changes(
                old(remotes)@,
                final(remotes)@,
                session_handle@,
                InputRequest::KeyboardKeysym { keysym, state },
                *plus,
            ),
    {
        notify_input_event(
            remotes,
            session_handle,
            InputRequest::KeyboardKeysym { keysym, state },
            plus,
        )
    }

    /// Takes a new touch point.
    pub fn notify_touch_down<P: Desktop, F: Fn(P::Coord, P::Coord) -> P::Coord>(
        &self,
        remotes: &mut Vec<RemoteSessionData<P>>,
        session_handle: &HandlePath,
        slot: u32,
        x: P::Coord,
        y: P::Coord,
        plus: &F,
    ) -> (r: Result<Option<Delivery<P::Coord>>, PortalError>)
        requires
            forall|a: P::Coord, b: P::Coord| call_requires(*plus, (a, b)),
        ensures
            delivers(
                old(remotes)@,
                session_handle@,
                InputRequest::TouchDown { slot, x, y },
                r,
            ),
            input_changes(
                old(remotes)@,
                final(remotes)@,
                session_handle@,
                InputRequest::TouchDown { slot, x, y },
                *plus,
            ),
    {
        notify_input_event(
            remotes,
            session_handle,
            InputRequest::TouchDown { slot, x, y },
            plus,
        )
    }

    /// Takes a motion of a touch point.
    pub fn notify_touch_motion<P: Desktop, F: Fn(P::Coord, P::Coord) -> P::Coord>(
        &self,
        remotes: &mut Vec<RemoteSessionData<P>>,
        session_handle: &HandlePath,
        slot: u32,
        x: P::Coord,
        y: P::Coord,
        plus: &F,
    ) -> (r: Result<Option<Delivery<P::Coord>>, PortalError>)
        requires
            forall|a: P::Coord, b: P::Coord| call_requires(*plus, (a, b)),
        ensures
            delivers(
                old(remotes)@,
                session_handle@,
                InputRequest::TouchMotion { slot, x, y },
                r,
            ),
            input_changes(
                old(remotes)@,
                final(remotes)@,
                session_handle@,
                InputRequest::TouchMotion { slot, x, y },
                *plus,
            ),
    {
        notify_input_event(
            remotes,
            session_handle,
            InputRequest::TouchMotion { slot, x, y },
            plus,
        )
    }

    /// Takes the end of a touch point.
    pub fn notify_touch_up<P: Desktop, F: Fn(P::Coord, P::Coord) -> P::Coord>(
        &self,
        remotes: &mut Vec<RemoteSessionData<P>>,
        session_handle: &HandlePath,
        slot: u32,
        plus: &F,
    ) -> (r: Result<Option<Delivery<P::Coord>>, PortalError>)
        requires
            forall|a: P::Coord, b: P::Coord| call_requires(*plus, (a, b)),
        ensures
            delivers(
                old(remotes)@,
                session_handle@,
                InputRequest::TouchUp { slot },
                r,
            ),
            input_changes(
                old(remotes)@,
                final(remotes)@,
                session_handle@,
                InputRequest::TouchUp { slot },
                *plus,
            ),
    {
        notify_input_event(
            remotes,
            session_handle,
            InputRequest::TouchUp { slot },
            plus,
        )
    }

    /// Lets a started session accept emulated-input clients, within what it was granted.
    pub fn connect_to_eis<P: Desktop>(
        &self,
        remotes: &Vec<RemoteSessionData<P>>,
        session_handle: &HandlePath,
    ) -> (r: Result<EisGrant, PortalError>)
        ensures
            match remote_handles(remotes@).index_of_first(session_handle@) {
                Some(index) => r matches Ok(grant) && grant.session_handle@ == session_handle@
                    && grant.devices == remotes@[index].authorization.devices,
                None => r == Err::<EisGrant, PortalError>(PortalError::NotStarted),
            },
    {
        match remote_position(remotes, session_handle.as_str()) {
            Some(index) => Ok(
                EisGrant {
                    session_handle: session_handle.to_text(),
                    devices: remotes[index].authorization.devices,
                },
            ),
            None => Err(PortalError::NotStarted),
        }
    }
}

/// The session for which emulated-input clients are accepted, and the devices that they may use.
#[derive(Debug)]
pub struct EisGrant {
    pub session_handle: String,
    pub devices: BitFlags<DeviceType>,
}

impl EisGrant {
    /// The message that has the server listen for the clients.
    pub fn message<L>(self, listener: L) -> (r: EisServerMsg<L>)
        ensures
            r == EisServerMsg::NewListener(listener, self.session_handle, self.devices),
    {
        EisServerMsg::NewListener(listener, self.session_handle, self.devices)
    }
}

} // verus!
