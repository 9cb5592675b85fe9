//! The home page: the list of employees and the "pick the next" button.

use crate::entity::employee::Employee;
use crate::entity::ErrorMessage;
use crate::page::Status;
use vstd::prelude::*;

verus! {

/// The home page's state: the employee list being fetched, and who was last
/// picked, if anyone.
#[derive(Debug, PartialEq)]
pub struct Model {
    pub employees: Status<Vec<Employee>>,
    pub employee_picked: Option<Employee>,
}

/// What can happen on the home page.
#[derive(Debug, PartialEq)]
pub enum Msg {
    ListLoaded(Result<Vec<Employee>, Vec<ErrorMessage>>),
    PickEmployee,
    EmployeePicked(Result<(Vec<Employee>, Option<Employee>), Vec<ErrorMessage>>),
    SlowLoadThresholdPassed,
}

/// What the runtime must do after an update: nothing, ask the server for a
/// pick, or log the errors of a failed request.
#[derive(Debug, PartialEq)]
pub enum Cmd {
    Nothing,
    Pick,
    LogErrors(Vec<ErrorMessage>),
}

/// The state the page starts in: the list loading, nobody picked.
pub open spec fn spec_init() -> Model {
    Model { employees: Status::Loading, employee_picked: None }
}

pub fn init() -> (m: Model)
    ensures
        m == spec_init(),
{
    Model { employees: Status::Loading, employee_picked: None }
}

/// The page's transition function: the next state and the command the runtime
/// owes for it.
pub open spec fn spec_update(msg: Msg, m: Model) -> (Model, Cmd) {
    match msg {
        Msg::ListLoaded(Ok(employees)) => (
            Model { employees: Status::Loaded(employees), ..m },
            Cmd::Nothing,
        ),
        Msg::ListLoaded(Err(errors)) => (
            Model { employees: Status::Failed, ..m },
            Cmd::LogErrors(errors),
        ),
        Msg::PickEmployee => (m, Cmd::Pick),
        Msg::EmployeePicked(Ok((employees, employee))) => (
            Model { employees: Status::Loaded(employees), employee_picked: employee },
            Cmd::Nothing,
        ),
        Msg::EmployeePicked(Err(errors)) => (
            Model { employees: Status::Failed, employee_picked: None },
            Cmd::LogErrors(errors),
        ),
        Msg::SlowLoadThresholdPassed => (
            Model {
                employees: if m.employees is Loading {
                    Status::LoadingSlowly
                } else {
                    m.employees
                },
                ..m
            },
            Cmd::Nothing,
        ),
    }
}

pub fn update(msg: Msg, model: &mut Model) -> (c: Cmd)
    ensures
        (*final(model), c) == spec_update(msg, *old(model)),
{
    match msg {
        Msg::ListLoaded(Ok(employees)) => {
            model.employees = Status::Loaded(employees);
            Cmd::Nothing
        },
        Msg::ListLoaded(Err(errors)) => {
            model.employees = Status::Failed;
            Cmd::LogErrors(errors)
        },
        Msg::PickEmployee => Cmd::Pick,
        Msg::EmployeePicked(Ok((employees, employee))) => {
            model.employees = Status::Loaded(employees);
            model.employee_picked = employee;
            Cmd::Nothing
        },
        Msg::EmployeePicked(Err(errors)) => {
            model.employees = Status::Failed;
            model.employee_picked = None;
            Cmd::LogErrors(errors)
        },
        Msg::SlowLoadThresholdPassed => {
            if let Status::Loading = model.employees {
                model.employees = Status::LoadingSlowly;
            }
            Cmd::Nothing
        },
    }
}

/// Whether every employee of the list has been picked already.
pub open spec fn all_picked(s: Seq<Employee>) -> bool {
    forall|i: int| 0 <= i < s.len() ==> s[i].picked
}

/// The employees the table shows: once everyone has been picked the whole list
/// again, otherwise only those not picked yet.
pub open spec fn spec_visible(s: Seq<Employee>) -> Seq<Employee> {
    if all_picked(s) {
        s
    } else {
        s.filter(|e: Employee| !e.picked)
    }
}

pub fn visible_employees(employees: &Vec<Employee>) -> (v: Vec<Employee>)
    ensures
        v@ == spec_visible(employees@),
{
    let mut everyone_picked = true;
    let n = employees.len();
    for i in 0..n
        invariant
            n == employees@.len(),
            everyone_picked == all_picked(employees@.subrange(0, i as int)),
    {
        if !employees[i].picked {
            everyone_picked = false;
        }
        proof {
            let s0 = employees@.subrange(0, i as int);
            let s1 = employees@.subrange(0, i + 1);
            if all_picked(s0) && employees@[i as int].picked {
                assert forall|j: int| 0 <= j < s1.len() implies s1[j].picked by {
                    if j < i {
                        assert(s0[j].picked);
                    }
                }
                assert(all_picked(s1));
            }
            if all_picked(s1) {
                assert forall|j: int| 0 <= j < s0.len() implies s0[j].picked by {
                    assert(s1[j].picked);
                }
                assert(employees@[i as int].picked == s1[i as int].picked);
            }
        }
    }
    proof {
        assert(employees@.subrange(0, n as int) =~= employees@);
    }
    if everyone_picked {
        let v = employees.clone();
        proof {
            assert(v@ =~= employees@);
        }
        v
    } else {
        let mut v: Vec<Employee> = Vec::new();
        for i in 0..n
            invariant
                n == employees@.len(),
                v@ == employees@.subrange(0, i as int).filter(|e: Employee| !e.picked),
        {
            proof {
                reveal(Seq::filter);
                assert(employees@.subrange(0, i + 1).drop_last() =~= employees@.subrange(
                    0,
                    i as int,
                ));
                assert(employees@.subrange(0, i + 1).last() == employees@[i as int]);
            }
            if !employees[i].picked {
                v.push(employees[i].clone());
            }
        }
        proof {
            assert(employees@.subrange(0, n as int) =~= employees@);
        }
        v
    }
}

} // verus!
