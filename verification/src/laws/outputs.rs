//! Outputs: how large the desktop is, and which output a client gets.

use crate::error::PortalError;
use crate::monitor::bottom_edge;
use crate::monitor::checked_output_index;
use crate::monitor::covers_outputs;
use crate::monitor::decides;
use crate::monitor::find_unique_output_name;
use crate::monitor::get_monitor_info;
use crate::monitor::get_monitor_info_from_socket;
use crate::monitor::is_only_place;
use crate::monitor::monitor_names;
use crate::monitor::output_names;
use crate::monitor::picker_to_ask;
use crate::monitor::remote_info_from_output;
use crate::monitor::right_edge;
use crate::monitor::space_size;
use crate::monitor::stands_nowhere_alone;
use crate::monitor::texts;
use crate::monitor::MonitorStep;
use crate::monitor::OutputInfo;
use crate::monitor::Picked;
use crate::monitor::Picker;
use crate::monitor::RemoteInfo;
use crate::monitor::Size;
use vstd::prelude::*;

verus! {

/// A length as a signed number: one from 2^31 on counts as negative.
pub open spec fn signed(length: u32) -> int {
    if length < 0x8000_0000 {
        length as int
    } else {
        length - 0x1_0000_0000
    }
}

/// Whether the desktop reaches from the origin to the furthest right and the furthest bottom edge
/// of its outputs, and no further.
pub open spec fn is_desktop_of<W>(outputs: Seq<OutputInfo<W>>, width: int, height: int) -> bool {
    &&& width >= 0 && height >= 0
    &&& forall|i: int|
        0 <= i < outputs.len() ==> {
            let output = #[trigger] outputs[i];
            &&& output.x + signed(output.width) <= width
            &&& output.y + signed(output.height) <= height
        }
    &&& width > 0 ==> exists|i: int|
        0 <= i < outputs.len() && (#[trigger] outputs[i]).x + signed(outputs[i].width) == width
    &&& height > 0 ==> exists|i: int|
        0 <= i < outputs.len() && (#[trigger] outputs[i]).y + signed(outputs[i].height) == height
}

proof fn lemma_edges<W>(output: OutputInfo<W>)
    ensures
        right_edge(output) == output.x + signed(output.width),
        bottom_edge(output) == output.y + signed(output.height),
{
    let w = output.width;
    let h = output.height;
    assert(w >= 0x8000_0000 ==> (w as i32) == w - 0x1_0000_0000) by (bit_vector);
    assert(h >= 0x8000_0000 ==> (h as i32) == h - 0x1_0000_0000) by (bit_vector);
}

proof fn lemma_desktop<W>(outputs: Seq<OutputInfo<W>>, size: Size)
    requires
        covers_outputs(outputs, size),
    ensures
        is_desktop_of(outputs, size.width as int, size.height as int),
{
    assert forall|i: int| 0 <= i < outputs.len() implies {
        let output = #[trigger] outputs[i];
        &&& output.x + signed(output.width) <= size.width
        &&& output.y + signed(output.height) <= size.height
    } by {
        lemma_edges(outputs[i]);
    }
    if size.width > 0 {
        let i = choose|i: int|
            #![trigger outputs[i]]
            0 <= i < outputs.len() && right_edge(outputs[i]) == size.width;
        lemma_edges(outputs[i]);
    }
    if size.height > 0 {
        let i = choose|i: int|
            #![trigger outputs[i]]
            0 <= i < outputs.len() && bottom_edge(outputs[i]) == size.height;
        lemma_edges(outputs[i]);
    }
}

/// The size of the desktop reaches to the furthest edges of the outputs.
pub proof fn desktops_reach_to_the_furthest_edges<W>(outputs: &Vec<OutputInfo<W>>, r: Size)
    requires
        call_ensures(space_size::<W>, (outputs,), r),
    ensures
        is_desktop_of(outputs@, r.width as int, r.height as int),
{
    lemma_desktop(outputs@, r);
}

/// A name is found just where it stands once, and there.
pub proof fn names_are_found_where_they_stand_once(
    names: &[&str],
    restored_name: &str,
    r: Option<usize>,
    i: int,
)
    requires
        call_ensures(find_unique_output_name, (names, restored_name), r),
        0 <= i < names@.len(),
    ensures
        (r matches Some(index) && index == i) <==> names@[i]@ == restored_name@ && forall|j: int|
            0 <= j < names@.len() && j != i ==> (#[trigger] names@[j])@ != restored_name@,
        r matches Some(index) ==> index < names@.len() && names@[index as int]@ == restored_name@,
{
    let all = texts(names@);
    assert(all.len() == names@.len());
    assert(forall|j: int| 0 <= j < names@.len() ==> all[j] == (#[trigger] names@[j])@);
    if names@[i]@ == restored_name@ && forall|j: int|
        0 <= j < names@.len() && j != i ==> (#[trigger] names@[j])@ != restored_name@ {
        assert forall|j: int| 0 <= j < all.len() && j != i implies all[j] != restored_name@ by {
            assert(names@[j]@ == all[j]);
        }
        assert(is_only_place(all, restored_name@, i));
        if r is None {
            assert(stands_nowhere_alone(all, restored_name@));
        }
        let index = r->0 as int;
        assert(is_only_place(all, restored_name@, index));
        assert(all[index] == names@[index]@);
    }
    if r is Some && r->0 == i {
        assert forall|j: int| 0 <= j < names@.len() && j != i implies (
        #[trigger] names@[j])@ != restored_name@ by {
            assert(all[j] == names@[j]@);
        }
    }
}

/// An index is good just where there is an output for it, and is not changed.
pub proof fn indices_must_name_an_output(
    output_count: usize,
    index: u32,
    r: Result<usize, PortalError>,
)
    requires
        call_ensures(checked_output_index, (output_count, index), r),
    ensures
        r is Ok <==> index < output_count,
        r matches Ok(checked) ==> checked == index,
        r matches Err(error) ==> error == PortalError::InvalidOutputIndex(index as usize),
{
}

/// The picker on the socket is asked just where its socket exists.
pub proof fn socket_picker_comes_first(socket_exists: bool, r: Picker)
    requires
        call_ensures(picker_to_ask, (socket_exists,), r),
    ensures
        r is Socket <==> socket_exists,
        r is Screen <==> !socket_exists,
{
}

/// Whether `info` tells of `output`, in a desktop of the given size.
pub open spec fn tells_of_output<W: Clone>(
    info: RemoteInfo<W>,
    output: OutputInfo<W>,
    width: int,
    height: int,
) -> bool {
    &&& info.output_name@ == output.name@
    &&& info.x == output.x
    &&& info.y == output.y
    &&& info.width == width
    &&& info.height == height
    &&& cloned(output.wl_output, info.wl_output)
}

/// The description of an output has its name, its place and its handle, and the size that is
/// handed in.
pub proof fn outputs_are_described<W: Clone>(
    output: &OutputInfo<W>,
    width: i32,
    height: i32,
    r: RemoteInfo<W>,
)
    requires
        call_ensures(remote_info_from_output::<W>, (output, width, height), r),
    ensures
        tells_of_output(r, *output, width as int, height as int),
{
}

/// The picker is shown the names of the outputs, in their order.
pub proof fn pickers_show_all_names<W>(outputs: &Vec<OutputInfo<W>>, r: Vec<String>, i: int)
    requires
        call_ensures(monitor_names::<W>, (outputs,), r),
    ensures
        r@.len() == outputs@.len(),
        0 <= i < outputs@.len() ==> r@[i]@ == outputs@[i].name@,
{
    let shown = r@.map_values(|name: String| name@);
    assert(shown.len() == outputs@.len());
    if 0 <= i < outputs@.len() {
        assert(shown[i] == r@[i]@);
    }
}

/// Whether the output at `index` is the only one of its name.
pub open spec fn only_output_named<W>(
    outputs: Seq<OutputInfo<W>>,
    name: Seq<char>,
    index: int,
) -> bool {
    &&& 0 <= index < outputs.len()
    &&& outputs[index].name@ == name
    &&& forall|i: int|
        0 <= i < outputs.len() && i != index ==> (#[trigger] outputs[i]).name@ != name
}

/// Whether an output is chosen as it should be. One whose name a token gives and which is the only
/// one of that name is taken without asking. Otherwise the user is asked, and the answer decides:
/// an index names an output or is refused, a screen is taken as it is, and dismissing or failing
/// is passed on. The size is always that of the desktop.
pub open spec fn output_is_chosen<W: Clone>(
    outputs: Seq<OutputInfo<W>>,
    restored_name: Option<Seq<char>>,
    picked: Picked<W>,
    width: int,
    height: int,
    r: Result<MonitorStep<W>, PortalError>,
) -> bool {
    &&& restored_name matches Some(name) ==> forall|i: int| #[trigger]
        only_output_named(outputs, name, i) ==> (r matches Ok(MonitorStep::Chosen(info))
            && tells_of_output(info, outputs[i], width, height))
    &&& (restored_name matches Some(name) ==> forall|i: int|
        !only_output_named(outputs, name, i)) ==> match picked {
        Picked::NotAsked => r matches Ok(MonitorStep::Ask),
        Picked::Index(index) => if index < outputs.len() {
            r matches Ok(MonitorStep::Chosen(info)) && tells_of_output(
                info,
                outputs[index as int],
                width,
                height,
            )
        } else {
            r matches Err(PortalError::InvalidOutputIndex(told)) && told == index
        },
        Picked::Screen { name, x, y, wl_output } => r matches Ok(MonitorStep::Chosen(info)) && {
            &&& info.output_name@ == name@
            &&& info.x == x
            &&& info.y == y
            &&& info.width == width
            &&& info.height == height
            &&& info.wl_output == wl_output
        },
        Picked::Dismissed => r matches Err(PortalError::Cancelled),
        Picked::Failed(reason) => r matches Err(PortalError::Wayland(told)) && told@ == reason@,
    }
}

proof fn lemma_output_is_chosen<W: Clone>(
    outputs: Seq<OutputInfo<W>>,
    restored_name: Option<Seq<char>>,
    picked: Picked<W>,
    size: Size,
    r: Result<MonitorStep<W>, PortalError>,
)
    requires
        decides(outputs, restored_name, picked, size, r),
    ensures
        output_is_chosen(
            outputs,
            restored_name,
            picked,
            size.width as int,
            size.height as int,
            r,
        ),
{
    let names = output_names(outputs);
    assert(names.len() == outputs.len());
    assert(forall|i: int| 0 <= i < outputs.len() ==> names[i] == (#[trigger] outputs[i]).name@);
    if let Some(name) = restored_name {
        assert forall|i: int| only_output_named(outputs, name, i) == is_only_place(
            names,
            name,
            i,
        ) by {
            if is_only_place(names, name, i) {
                assert forall|j: int| 0 <= j < outputs.len() && j != i implies (
                #[trigger] outputs[j]).name@ != name by {
                    assert(names[j] == outputs[j].name@);
                }
            }
            if only_output_named(outputs, name, i) {
                assert forall|j: int| 0 <= j < names.len() && j != i implies names[j] != name by {
                    assert(names[j] == outputs[j].name@);
                }
            }
        }
        if exists|i: int| is_only_place(names, name, i) {
            let place = choose|i: int| is_only_place(names, name, i);
            assert(only_output_named(outputs, name, place));
            assert forall|i: int| #[trigger] only_output_named(outputs, name, i) implies i
                == place by {
                assert(is_only_place(names, name, i));
            }
        } else {
            assert forall|i: int| !only_output_named(outputs, name, i) by {
                assert(!is_only_place(names, name, i));
            }
        }
    }
}

/// The output that a client gets to control is the one that its token names, where there is just
/// one such, and otherwise the one that the user picks; with it goes the size of the desktop.
pub proof fn outputs_are_chosen_by_token_or_user<W: Clone>(
    outputs: &Vec<OutputInfo<W>>,
    restored_name: Option<&str>,
    picked: Picked<W>,
    r: Result<MonitorStep<W>, PortalError>,
    width: int,
    height: int,
)
    requires
        call_ensures(get_monitor_info::<W>, (outputs, restored_name, picked), r),
        is_desktop_of(outputs@, width, height),
    ensures
        output_is_chosen(
            outputs@,
            match restored_name {
                Some(name) => Some(name@),
                None => None,
            },
            picked,
            width,
            height,
            r,
        ),
{
    let name = match restored_name {
        Some(name) => Some(name@),
        None => None,
    };
    let size = choose|size: Size| #[trigger]
        covers_outputs(outputs@, size) && decides(outputs@, name, picked, size, r);
    lemma_desktop(outputs@, size);
    lemma_desktop_is_one(outputs@, width, height, size.width as int, size.height as int);
    lemma_output_is_chosen(outputs@, name, picked, size, r);
}

proof fn lemma_desktop_is_one<W>(
    outputs: Seq<OutputInfo<W>>,
    width: int,
    height: int,
    other_width: int,
    other_height: int,
)
    requires
        is_desktop_of(outputs, width, height),
        is_desktop_of(outputs, other_width, other_height),
    ensures
        width == other_width,
        height == other_height,
{
}

/// Without a token the user alone decides.
pub proof fn outputs_are_chosen_by_the_user<W: Clone>(
    outputs: &Vec<OutputInfo<W>>,
    picked: Picked<W>,
    r: Result<MonitorStep<W>, PortalError>,
    width: int,
    height: int,
)
    requires
        call_ensures(get_monitor_info_from_socket::<W>, (outputs, picked), r),
        is_desktop_of(outputs@, width, height),
    ensures
        output_is_chosen(outputs@, None, picked, width, height, r),
{
    let size = choose|size: Size| #[trigger]
        covers_outputs(outputs@, size) && decides(outputs@, None, picked, size, r);
    lemma_desktop(outputs@, size);
    lemma_desktop_is_one(outputs@, width, height, size.width as int, size.height as int);
    lemma_output_is_chosen(outputs@, None, picked, size, r);
}

} // verus!
