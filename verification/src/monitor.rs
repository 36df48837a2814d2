//! Which output a client gets to control.
//!
//! `W` is a handle of an output, which is passed on without being looked at.

use crate::error::PortalError;
use crate::text::same_text;
use vstd::prelude::*;

verus! {

/// An output of the compositor.
#[derive(Debug)]
pub struct OutputInfo<W> {
    /// The name of the output.
    pub name: String,
    /// Where the output lies in the desktop.
    pub x: i32,
    /// Where the output lies in the desktop.
    pub y: i32,
    /// The size of the output in pixels.
    pub width: u32,
    /// The size of the output in pixels.
    pub height: u32,
    /// The handle of the output.
    pub wl_output: W,
}

/// The size of an area.
#[derive(Debug, Clone, Copy, PartialEq, Eq, Structural)]
pub struct Size {
    pub width: i32,
    pub height: i32,
}

/// Where an output ends on the right.
pub open spec fn right_edge<W>(output: OutputInfo<W>) -> int {
    (output.width as i32) + output.x
}

/// Where an output ends below.
pub open spec fn bottom_edge<W>(output: OutputInfo<W>) -> int {
    (output.height as i32) + output.y
}

/// Whether the edges of all outputs are numbers that the machine can hold.
pub open spec fn edges_fit<W>(outputs: Seq<OutputInfo<W>>) -> bool {
    forall|i: int|
        #![trigger outputs[i]]
        0 <= i < outputs.len() ==> i32::MIN <= right_edge(outputs[i]) <= i32::MAX && i32::MIN
            <= bottom_edge(outputs[i]) <= i32::MAX
}

/// Whether `size` is the smallest area from the origin that covers every output.
pub open spec fn covers_outputs<W>(outputs: Seq<OutputInfo<W>>, size: Size) -> bool {
    &&& size.width >= 0
    &&& size.height >= 0
    &&& forall|i: int|
        #![trigger outputs[i]]
        0 <= i < outputs.len() ==> right_edge(outputs[i]) <= size.width && bottom_edge(outputs[i])
            <= size.height
    &&& size.width == 0 || exists|i: int|
        #![trigger outputs[i]]
        0 <= i < outputs.len() && right_edge(outputs[i]) == size.width
    &&& size.height == 0 || exists|i: int|
        #![trigger outputs[i]]
        0 <= i < outputs.len() && bottom_edge(outputs[i]) == size.height
}

/// The area that the outputs take up together.
pub fn space_size<W>(outputs: &Vec<OutputInfo<W>>) -> (r: Size)
    requires
        edges_fit(outputs@),
    ensures
        covers_outputs(outputs@, r),
{
    let mut space_width: i32 = 0;
    let mut space_height: i32 = 0;
    let mut i: usize = 0;
    while i < outputs.len()
        invariant
            i <= outputs@.len(),
            edges_fit(outputs@),
            covers_outputs(
                outputs@.take(i as int),
                (Size { width: space_width, height: space_height }),
            ),
        decreases outputs@.len() - i,
    {
        let output = &outputs[i];
        let ghost seen = outputs@.take(i as int);
        let ghost before = Size { width: space_width, height: space_height };
        assert(right_edge(outputs@[i as int]) == (output.width as i32) + output.x);
        let right: i32 = output.width as i32 + output.x;
        let bottom: i32 = output.height as i32 + output.y;
        if right > space_width {
            space_width = right;
        }
        if bottom > space_height {
            space_height = bottom;
        }
        i = i + 1;
        proof {
            let now = outputs@.take(i as int);
            assert(now =~= seen.push(outputs@[i - 1]));
            assert(now[i - 1] == outputs@[i - 1]);
            assert forall|j: int| #![trigger now[j]] 0 <= j < now.len() implies right_edge(now[j])
                <= space_width && bottom_edge(now[j]) <= space_height by {
                if j < i - 1 {
                    assert(now[j] == seen[j]);
                }
            }
            if space_width != 0 && space_width == before.width {
                let j = choose|j: int|
                    #![trigger seen[j]]
                    0 <= j < seen.len() && right_edge(seen[j]) == before.width;
                assert(now[j] == seen[j]);
            }
            if space_height != 0 && space_height == before.height {
                let j = choose|j: int|
                    #![trigger seen[j]]
                    0 <= j < seen.len() && bottom_edge(seen[j]) == before.height;
                assert(now[j] == seen[j]);
            }
        }
    }
    assert(outputs@.take(i as int) =~= outputs@);
    Size { width: space_width, height: space_height }
}

/// Whether `index` is the one place at which `name` stands.
pub open spec fn is_only_place(names: Seq<Seq<char>>, name: Seq<char>, index: int) -> bool {
    &&& 0 <= index < names.len()
    &&& names[index] == name
    &&& forall|i: int| 0 <= i < names.len() && i != index ==> names[i] != name
}

/// Whether `name` stands at no place, or at more than one.
pub open spec fn stands_nowhere_alone(names: Seq<Seq<char>>, name: Seq<char>) -> bool {
    forall|i: int| !is_only_place(names, name, i)
}

/// The texts of some strings.
pub open spec fn texts(names: Seq<&str>) -> Seq<Seq<char>> {
    names.map_values(|name: &str| name@)
}

/// The one place at which `restored_name` stands; `None` where it stands nowhere or more than
/// once.
pub fn find_unique_output_name(names: &[&str], restored_name: &str) -> (r: Option<usize>)
    ensures
        match r {
            Some(index) => is_only_place(texts(names@), restored_name@, index as int),
            None => forall|i: int| !is_only_place(texts(names@), restored_name@, i),
        },
        r is None ==> stands_nowhere_alone(texts(names@), restored_name@),
{
    let ghost all = texts(names@);
    let mut found: Option<usize> = None;
    let mut i: usize = 0;
    while i < names.len()
        invariant
            i <= names@.len(),
            all == texts(names@),
            match found {
                Some(index) => {
                    &&& index < i
                    &&& all[index as int] == restored_name@
                    &&& forall|j: int| 0 <= j < i && j != index ==> all[j] != restored_name@
                },
                None => forall|j: int| 0 <= j < i ==> all[j] != restored_name@,
            },
        decreases names@.len() - i,
    {
        if same_text(names[i], restored_name) {
            assert(all[i as int] == restored_name@);
            match found {
                Some(index) => {
                    assert forall|k: int| !is_only_place(all, restored_name@, k) by {
                        assert(all[index as int] == restored_name@);
                        assert(all[i as int] == restored_name@);
                    }
                    return None;
                },
                None => {
                    found = Some(i);
                },
            }
        }
        i = i + 1;
    }
    found
}

/// Checks the index that an output picker returned.
pub fn checked_output_index(output_count: usize, index: u32) -> (r: Result<usize, PortalError>)
    ensures
        r == (if (index as int) < output_count {
            Ok::<usize, PortalError>(index as usize)
        } else {
            Err::<usize, PortalError>(PortalError::InvalidOutputIndex(index as usize))
        }),
{
    let index: usize = index as usize;
    if index < output_count {
        Ok(index)
    } else {
        Err(PortalError::InvalidOutputIndex(index))
    }
}

/// The output that a client gets to control.
#[derive(Debug)]
pub struct RemoteInfo<W> {
    pub output_name: String,
    pub x: i32,
    pub y: i32,
    /// The size of the whole desktop.
    pub width: i32,
    /// The size of the whole desktop.
    pub height: i32,
    pub wl_output: W,
}

/// Whether `info` describes `output` in a desktop of size `width` by `height`.
pub open spec fn describes<W: Clone>(
    info: RemoteInfo<W>,
    output: OutputInfo<W>,
    width: i32,
    height: i32,
) -> bool {
    &&& info.output_name@ == output.name@
    &&& info.x == output.x
    &&& info.y == output.y
    &&& info.width == width
    &&& info.height == height
    &&& cloned(output.wl_output, info.wl_output)
}

/// The description of an output in a desktop of size `width` by `height`.
pub fn remote_info_from_output<W: Clone>(output: &OutputInfo<W>, width: i32, height: i32) -> (r:
    RemoteInfo<W>)
    ensures
        describes(r, *output, width, height),
{
    RemoteInfo {
        output_name: output.name.clone(),
        x: output.x,
        y: output.y,
        width,
        height,
        wl_output: output.wl_output.clone(),
    }
}

/// What is known from the user about the output to take.
#[derive(Debug)]
pub enum Picked<W> {
    /// The user has not been asked.
    NotAsked,
    /// The picker on the socket returned the index of an output.
    Index(u32),
    /// The user selected a screen.
    Screen { name: String, x: i32, y: i32, wl_output: W },
    /// The user dismissed the selection.
    Dismissed,
    /// The selection failed.
    Failed(String),
}

/// The ways to ask the user for an output.
#[derive(Debug, Clone, Copy, PartialEq, Eq, Structural)]
pub enum Picker {
    /// The picker that listens on a socket.
    Socket,
    /// The selection on the screen itself.
    Screen,
}

/// How the user is asked: by the picker on the socket where that exists, on the screen otherwise.
pub fn picker_to_ask(socket_exists: bool) -> (r: Picker)
    ensures
        r == (if socket_exists {
            Picker::Socket
        } else {
            Picker::Screen
        }),
{
    if socket_exists {
        Picker::Socket
    } else {
        Picker::Screen
    }
}

/// How far the choice of an output has come.
#[derive(Debug)]
pub enum MonitorStep<W> {
    /// The output is chosen.
    Chosen(RemoteInfo<W>),
    /// The user has to be asked.
    Ask,
}

/// The names of the outputs.
pub open spec fn output_names<W>(outputs: Seq<OutputInfo<W>>) -> Seq<Seq<char>> {
    outputs.map_values(|output: OutputInfo<W>| output.name@)
}

/// The names of the outputs, for a picker to show.
pub fn monitor_names<W>(outputs: &Vec<OutputInfo<W>>) -> (r: Vec<String>)
    ensures
        r@.map_values(|name: String| name@) == output_names(outputs@),
{
    let mut names: Vec<String> = Vec::new();
    let mut i: usize = 0;
    while i < outputs.len()
        invariant
            i <= outputs@.len(),
            names@.len() == i,
            forall|j: int| 0 <= j < i ==> (#[trigger] names@[j])@ == outputs@[j].name@,
        decreases outputs@.len() - i,
    {
        names.push(outputs[i].name.clone());
        i = i + 1;
    }
    assert(names@.map_values(|name: String| name@) =~= output_names(outputs@));
    names
}

/// The place of the one output that has the name `restored_name`.
fn restored_output<W>(outputs: &Vec<OutputInfo<W>>, restored_name: &str) -> (r: Option<usize>)
    ensures
        match r {
            Some(index) => is_only_place(output_names(outputs@), restored_name@, index as int),
            None => forall|i: int| !is_only_place(output_names(outputs@), restored_name@, i),
        },
{
    let mut names: Vec<&str> = Vec::new();
    let mut i: usize = 0;
    while i < outputs.len()
        invariant
            i <= outputs@.len(),
            names@.len() == i,
            forall|j: int| 0 <= j < i ==> (#[trigger] names@[j])@ == outputs@[j].name@,
        decreases outputs@.len() - i,
    {
        names.push(outputs[i].name.as_str());
        i = i + 1;
    }
    assert(texts(names@) =~= output_names(outputs@));
    find_unique_output_name(names.as_slice(), restored_name)
}

/// Whether `step` is how far the choice of an output has come. An output that a token names and
/// that exists just once is taken without asking; otherwise the user decides.
pub open spec fn decides<W: Clone>(
    outputs: Seq<OutputInfo<W>>,
    restored_name: Option<Seq<char>>,
    picked: Picked<W>,
    size: Size,
    step: Result<MonitorStep<W>, PortalError>,
) -> bool {
    if restored_name is Some && exists|i: int|
        is_only_place(output_names(outputs), restored_name->0, i) {
        step matches Ok(MonitorStep::Chosen(info)) && exists|i: int| #[trigger]
            is_only_place(output_names(outputs), restored_name->0, i) && describes(
                info,
                outputs[i],
                size.width,
                size.height,
            )
    } else {
        match picked {
            Picked::NotAsked => step matches Ok(MonitorStep::Ask),
            Picked::Index(index) => if (index as int) < outputs.len() {
                step matches Ok(MonitorStep::Chosen(info)) && describes(
                    info,
                    outputs[index as int],
                    size.width,
                    size.height,
                )
            } else {
                step == Err::<MonitorStep<W>, PortalError>(
                    PortalError::InvalidOutputIndex(index as usize),
                )
            },
            Picked::Screen { name, x, y, wl_output } => step == Ok::<MonitorStep<W>, PortalError>(
                MonitorStep::Chosen(
                    RemoteInfo {
                        output_name: name,
                        x,
                        y,
                        width: size.width,
                        height: size.height,
                        wl_output,
                    },
                ),
            ),
            Picked::Dismissed => step == Err::<MonitorStep<W>, PortalError>(PortalError::Cancelled),
            Picked::Failed(reason) => step == Err::<MonitorStep<W>, PortalError>(
                PortalError::Wayland(reason),
            ),
        }
    }
}

/// Chooses the output that a client gets to control.
pub fn get_monitor_info<W: Clone>(
    outputs: &Vec<OutputInfo<W>>,
    restored_name: Option<&str>,
    picked: Picked<W>,
) -> (r: Result<MonitorStep<W>, PortalError>)
    requires
        edges_fit(outputs@),
    ensures
        exists|size: Size| #[trigger]
            covers_outputs(outputs@, size) && decides(
                outputs@,
                match restored_name {
                    Some(name) => Some(name@),
                    None => None,
                },
                picked,
                size,
                r,
            ),
{
    let size = space_size(outputs);
    if let Some(name) = restored_name {
        if let Some(index) = restored_output(outputs, name) {
            return Ok(
                MonitorStep::Chosen(
                    remote_info_from_output(&outputs[index], size.width, size.height),
                ),
            );
        }
    }
    match picked {
        Picked::NotAsked => Ok(MonitorStep::Ask),
        Picked::Index(index) => match checked_output_index(outputs.len(), index) {
            Ok(index) => Ok(
                MonitorStep::Chosen(
                    remote_info_from_output(&outputs[index], size.width, size.height),
                ),
            ),
            Err(error) => Err(error),
        },
        Picked::Screen { name, x, y, wl_output } => Ok(
            MonitorStep::Chosen(
                RemoteInfo {
                    output_name: name,
                    x,
                    y,
                    width: size.width,
                    height: size.height,
                    wl_output,
                },
            ),
        ),
        Picked::Dismissed => Err(PortalError::Cancelled),
        Picked::Failed(reason) => Err(PortalError::Wayland(reason)),
    }
}

/// Chooses the output that a client gets to control where no token names one: the user decides.
pub fn get_monitor_info_from_socket<W: Clone>(
    outputs: &Vec<OutputInfo<W>>,
    picked: Picked<W>,
) -> (r: Result<MonitorStep<W>, PortalError>)
    requires
        edges_fit(outputs@),
    ensures
        exists|size: Size| #[trigger]
            covers_outputs(outputs@, size) && decides(outputs@, None, picked, size, r),
{
    get_monitor_info(outputs, None, picked)
}

/// The area that covers the outputs is one and no other.
pub proof fn covering_area_is_unique<W>(outputs: Seq<OutputInfo<W>>, a: Size, b: Size)
    requires
        covers_outputs(outputs, a),
        covers_outputs(outputs, b),
    ensures
        a == b,
{
}

/// A name stands at one place only if at all: the output that a token names is determined.
pub proof fn only_place_is_unique(names: Seq<Seq<char>>, name: Seq<char>, i: int, j: int)
    requires
        is_only_place(names, name, i),
        is_only_place(names, name, j),
    ensures
        i == j,
{
}

} // verus!
