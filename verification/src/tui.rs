//! The interactive menus as data: each menu's actions, and which action
//! a selection index stands for. Prompting and drawing live outside the
//! library.

use vstd::prelude::*;

verus! {

/// A device as the interactive selector shows it.
#[derive(Clone, Debug)]
pub struct DeviceInfo {
    pub udid: String,
    pub name: String,
    pub runtime: String,
    pub is_booted: bool,
}

/// The main menu.
pub struct MainMenu;

/// What the main menu's entries do, in display order.
#[derive(Debug, Clone, Copy, PartialEq, Eq, Structural)]
pub enum MenuAction {
    Run,
    Build,
    Simulators,
    Vm,
    Settings,
    Setup,
    Exit,
}

impl MainMenu {
    /// The action of one selection index; anything past the list exits.
    pub fn action_for(selection: usize) -> (r: MenuAction)
        ensures
            selection == 0 ==> r == MenuAction::Run,
            selection == 1 ==> r == MenuAction::Build,
            selection == 2 ==> r == MenuAction::Simulators,
            selection == 3 ==> r == MenuAction::Vm,
            selection == 4 ==> r == MenuAction::Settings,
            selection == 5 ==> r == MenuAction::Setup,
            selection >= 6 ==> r == MenuAction::Exit,
    {
        if selection == 0 {
            MenuAction::Run
        } else if selection == 1 {
            MenuAction::Build
        } else if selection == 2 {
            MenuAction::Simulators
        } else if selection == 3 {
            MenuAction::Vm
        } else if selection == 4 {
            MenuAction::Settings
        } else if selection == 5 {
            MenuAction::Setup
        } else {
            MenuAction::Exit
        }
    }
}

/// The simulator management menu.
pub struct SimulatorMenu;

/// What the simulator menu's entries do, in display order.
#[derive(Debug, Clone, Copy, PartialEq, Eq, Structural)]
pub enum SimulatorAction {
    List,
    Boot,
    Shutdown,
    Back,
}

impl SimulatorMenu {
    /// The action of one selection index; anything past the list goes
    /// back.
    pub fn action_for(selection: usize) -> (r: SimulatorAction)
        ensures
            selection == 0 ==> r == SimulatorAction::List,
            selection == 1 ==> r == SimulatorAction::Boot,
            selection == 2 ==> r == SimulatorAction::Shutdown,
            selection >= 3 ==> r == SimulatorAction::Back,
    {
        if selection == 0 {
            SimulatorAction::List
        } else if selection == 1 {
            SimulatorAction::Boot
        } else if selection == 2 {
            SimulatorAction::Shutdown
        } else {
            SimulatorAction::Back
        }
    }
}

/// The VM control menu.
pub struct VmMenu;

/// What the VM menu's entries do, in display order.
#[derive(Debug, Clone, Copy, PartialEq, Eq, Structural)]
pub enum VmAction {
    Start,
    Stop,
    Status,
    Vnc,
    Back,
}

impl VmMenu {
    /// The action of one selection index; anything past the list goes
    /// back.
    pub fn action_for(selection: usize) -> (r: VmAction)
        ensures
            selection == 0 ==> r == VmAction::Start,
            selection == 1 ==> r == VmAction::Stop,
            selection == 2 ==> r == VmAction::Status,
            selection == 3 ==> r == VmAction::Vnc,
            selection >= 4 ==> r == VmAction::Back,
    {
        if selection == 0 {
            VmAction::Start
        } else if selection == 1 {
            VmAction::Stop
        } else if selection == 2 {
            VmAction::Status
        } else if selection == 3 {
            VmAction::Vnc
        } else {
            VmAction::Back
        }
    }
}

} // verus!
