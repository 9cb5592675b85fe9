//! The settings page: add a new employee or remove one.

use crate::entity::employee::{Employee, EmployeeId};
use crate::entity::ErrorMessage;
use crate::page::Status;
use vstd::prelude::*;

verus! {

/// The key code of the enter key, which submits the new employee's name.
pub const ENTER_KEY: u32 = 13;

/// The settings page's state: the employee list being fetched, and the name
/// typed into the "new employee" field.
#[derive(Debug, PartialEq)]
pub struct Model {
    pub employees: Status<Vec<Employee>>,
    pub new_employee_name: String,
}

/// What can happen on the settings page.
#[derive(Debug, PartialEq)]
pub enum Msg {
    ListLoaded(Result<Vec<Employee>, Vec<ErrorMessage>>),
    RemoveEmployee(EmployeeId),
    NewEmployeeNameChanged(String),
    AddEmployee,
    SlowLoadThresholdPassed,
    NoOp,
}

/// What the runtime must do after an update: nothing, ask the server to remove
/// or add an employee, or log the errors of a failed request.
#[derive(Debug, PartialEq)]
pub enum Cmd {
    Nothing,
    Remove(EmployeeId),
    Add(String),
    LogErrors(Vec<ErrorMessage>),
}

/// The state the page starts in: the list loading, the name field empty.
pub open spec fn is_init(m: Model) -> bool {
    m.employees is Loading && m.new_employee_name@ == Seq::<char>::empty()
}

pub fn init() -> (m: Model)
    ensures
        is_init(m),
{
    Model { employees: Status::Loading, new_employee_name: String::new() }
}

/// The page's transition relation: how the state after an update and the
/// command handed back relate to the state before. A loaded or failed list
/// clears the name field; the enter key hands the typed name to the server; a
/// removal click or an ordinary key press leaves the state alone.
pub open spec fn update_post(msg: Msg, m0: Model, m1: Model, c: Cmd) -> bool {
    match msg {
        Msg::ListLoaded(Ok(employees)) => {
            &&& m1.employees == Status::Loaded(employees)
            &&& m1.new_employee_name@ == Seq::<char>::empty()
            &&& c == Cmd::Nothing
        },
        Msg::ListLoaded(Err(errors)) => {
            &&& m1.employees is Failed
            &&& m1.new_employee_name@ == Seq::<char>::empty()
            &&& c == Cmd::LogErrors(errors)
        },
        Msg::RemoveEmployee(employee_id) => m1 == m0 && c == Cmd::Remove(employee_id),
        Msg::NewEmployeeNameChanged(name) => {
            &&& m1.new_employee_name == name
            &&& m1.employees == m0.employees
            &&& c == Cmd::Nothing
        },
        Msg::AddEmployee => m1 == m0 && c == Cmd::Add(m0.new_employee_name),
        Msg::SlowLoadThresholdPassed => {
            &&& m1.employees == (if m0.employees is Loading {
                Status::<Vec<Employee>>::LoadingSlowly
            } else {
                m0.employees
            })
            &&& m1.new_employee_name == m0.new_employee_name
            &&& c == Cmd::Nothing
        },
        Msg::NoOp => m1 == m0 && c == Cmd::Nothing,
    }
}

pub fn update(msg: Msg, model: &mut Model) -> (c: Cmd)
    ensures
        update_post(msg, *old(model), *final(model), c),
{
    match msg {
        Msg::ListLoaded(Ok(employees)) => {
            model.employees = Status::Loaded(employees);
            model.new_employee_name = String::new();
            Cmd::Nothing
        },
        Msg::ListLoaded(Err(errors)) => {
            model.employees = Status::Failed;
            model.new_employee_name = String::new();
            Cmd::LogErrors(errors)
        },
        Msg::RemoveEmployee(employee_id) => Cmd::Remove(employee_id),
        Msg::NewEmployeeNameChanged(name) => {
            model.new_employee_name = name;
            Cmd::Nothing
        },
        Msg::AddEmployee => Cmd::Add(model.new_employee_name.clone()),
        Msg::SlowLoadThresholdPassed => {
            if let Status::Loading = model.employees {
                model.employees = Status::LoadingSlowly;
            }
            Cmd::Nothing
        },
        Msg::NoOp => Cmd::Nothing,
    }
}

/// What a key press in the name field means: enter submits the name, every
/// other key does nothing.
pub fn key_down_msg(key_code: u32) -> (m: Msg)
    ensures
        key_code == ENTER_KEY ==> m == Msg::AddEmployee,
        key_code != ENTER_KEY ==> m == Msg::NoOp,
{
    if key_code == ENTER_KEY {
        Msg::AddEmployee
    } else {
        Msg::NoOp
    }
}

} // verus!
