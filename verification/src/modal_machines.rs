//! Selectors ("modal machines"): a list of choices ("teeth") from which the
//! user picks one, and the page selector of the client.
use vstd::prelude::*;
use crate::text::str_eq;

verus! {

/// The choices a selector offers, however they are held.
pub enum ModalMachineGear<'a> {
    Constant(&'static Vec<String>),
    Immutable(&'a Vec<String>),
    Mutable(&'a mut Vec<String>),
}

/// The choices held by a gear.
pub open spec fn gear_teeth(gear: &ModalMachineGear) -> Seq<String> {
    match gear {
        ModalMachineGear::Constant(v) => v@,
        ModalMachineGear::Immutable(v) => v@,
        ModalMachineGear::Mutable(v) => v@,
    }
}

impl<'a> ModalMachineGear<'a> {
    /// The choices the gear holds.
    pub fn teeth(&self) -> (r: &Vec<String>)
        ensures
            r@ == gear_teeth(self),
    {
        match self {
            ModalMachineGear::Constant(some_constant_gear) => some_constant_gear,
            ModalMachineGear::Immutable(some_immutable_gear) => some_immutable_gear,
            ModalMachineGear::Mutable(some_mutable_gear) => some_mutable_gear,
        }
    }
}

/// One frame of a selector, `clicked` telling which choice (by position) the
/// user clicked, if any: the clicked choice becomes the selection and is
/// returned; with no click (or a position past the choices) nothing changes.
pub fn modal_machine(selected_modal: &mut String, gear: &ModalMachineGear, clicked: Option<usize>) -> (tooth: Option<String>)
    ensures
        match clicked {
            Some(i) => if i < gear_teeth(gear).len() {
                tooth matches Some(t) && t@ == gear_teeth(gear)[i as int]@ && final(selected_modal)@
                    == gear_teeth(gear)[i as int]@
            } else {
                tooth is None && final(selected_modal)@ == old(selected_modal)@
            },
            None => tooth is None && final(selected_modal)@ == old(selected_modal)@,
        },
{
    let wheel = gear.teeth();
    match clicked {
        Some(i) => {
            if i < wheel.len() {
                let tooth = wheel[i].clone();
                *selected_modal = tooth.clone();
                Some(tooth)
            } else {
                None
            }
        },
        None => None,
    }
}

/// Runs `action` on the chosen tooth, if a tooth was chosen.
pub fn act_on_tooth<F: FnMut(&str)>(some_tooth: Option<String>, mut action: F)
    requires
        forall|x: &str| (some_tooth matches Some(t) && x@ == t@) ==> #[trigger] call_requires(action, (x,)),
    ensures
        some_tooth matches Some(t) ==> exists|x: &str| x@ == t@ && #[trigger] call_ensures(action, (x,), ()),
{
    if let Some(tooth) = some_tooth {
        action(tooth.as_str());
    }
}

/// The pages of the client.
#[derive(Debug, PartialEq)]
pub enum Page {
    /// The login form.
    Login,
    /// The nether portals, for a logged-in user.
    NetherPortals,
    /// The nether portals were picked, but nobody is logged in.
    PleaseLogIn,
    /// Nothing (or something unknown) was picked.
    Elsewhere,
}

/// The page to show for the picked page name and the login state.
pub fn choose_page(selected_modal_page: &str, is_logged_in: bool) -> (r: Page)
    ensures
        selected_modal_page@ == "Login"@ ==> r == Page::Login,
        selected_modal_page@ != "Login"@ && selected_modal_page@ == "Nether Portals"@ ==> r == (
        if is_logged_in {
            Page::NetherPortals
        } else {
            Page::PleaseLogIn
        }),
        selected_modal_page@ != "Login"@ && selected_modal_page@ != "Nether Portals"@ ==> r
            == Page::Elsewhere,
{
    if str_eq(selected_modal_page, "Login") {
        Page::Login
    } else if str_eq(selected_modal_page, "Nether Portals") {
        if is_logged_in {
            Page::NetherPortals
        } else {
            Page::PleaseLogIn
        }
    } else {
        Page::Elsewhere
    }
}

} // verus!
