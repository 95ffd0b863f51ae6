//! A verified chain of responsibility: a patient's visit passes through a
//! chain of departments, each marking its own stage of the visit done and
//! handing the patient on to the next.

use vstd::prelude::*;

verus! {

/// The record the departments stamp.
#[derive(Debug)]
pub struct Patient {
    pub name: String,
    pub registration_done: bool,
    pub doctor_check_up_done: bool,
    pub medical_done: bool,
    pub payment_done: bool,
}

impl Default for Patient {
    /// A fresh, unhandled, unnamed patient.
    fn default() -> (p: Patient)
        ensures
            p.name@ == Seq::<char>::empty(),
            !p.registration_done,
            !p.doctor_check_up_done,
            !p.medical_done,
            !p.payment_done,
    {
        Patient {
            name: String::new(),
            registration_done: false,
            doctor_check_up_done: false,
            medical_done: false,
            payment_done: false,
        }
    }
}

/// The four stages of a visit, each owned by one department kind.
#[derive(Clone, Copy, PartialEq, Eq, Structural, Debug)]
pub enum Stage {
    Registration,
    DoctorCheckUp,
    Medicine,
    Payment,
}

/// The cashier takes payment.
#[derive(Debug)]
pub struct Cashier {
    pub next: Option<Box<Department>>,
}

/// The doctor performs the check-up.
#[derive(Debug)]
pub struct Doctor {
    pub next: Option<Box<Department>>,
}

/// The medical department hands out the medicine.
#[derive(Debug)]
pub struct Medical {
    pub next: Option<Box<Department>>,
}

/// The reception registers the patient.
#[derive(Debug)]
pub struct Reception {
    pub next: Option<Box<Department>>,
}

/// A department of any kind, chained to an optional successor.
#[derive(Debug)]
pub enum Department {
    Cashier(Cashier),
    Doctor(Doctor),
    Medical(Medical),
    Reception(Reception),
}

/// Whether the chain starting at `d` contains a department owning `stage`.
pub open spec fn chain_handles(d: Department, stage: Stage) -> bool
    decreases d,
{
    match d {
        Department::Cashier(c) => stage == Stage::Payment || (match c.next {
            Some(b) => chain_handles(*b, stage),
            None => false,
        }),
        Department::Doctor(c) => stage == Stage::DoctorCheckUp || (match c.next {
            Some(b) => chain_handles(*b, stage),
            None => false,
        }),
        Department::Medical(c) => stage == Stage::Medicine || (match c.next {
            Some(b) => chain_handles(*b, stage),
            None => false,
        }),
        Department::Reception(c) => stage == Stage::Registration || (match c.next {
            Some(b) => chain_handles(*b, stage),
            None => false,
        }),
    }
}

/// Wrap a department as the `next` link of another.
pub fn into_next(department: Department) -> (r: Option<Box<Department>>)
    ensures
        (match r {
            Some(b) => *b == department,
            None => false,
        }),
{
    Some(Box::new(department))
}

impl Default for Cashier {
    /// A cashier at the end of a chain.
    fn default() -> (c: Cashier)
        ensures
            c.next is None,
    {
        Cashier { next: None }
    }
}

impl Doctor {
    pub fn new(next: Department) -> (d: Doctor)
        ensures
            (match d.next {
                Some(b) => *b == next,
                None => false,
            }),
    {
        Doctor { next: into_next(next) }
    }
}

impl Medical {
    pub fn new(next: Department) -> (d: Medical)
        ensures
            (match d.next {
                Some(b) => *b == next,
                None => false,
            }),
    {
        Medical { next: into_next(next) }
    }
}

impl Reception {
    pub fn new(next: Department) -> (d: Reception)
        ensures
            (match d.next {
                Some(b) => *b == next,
                None => false,
            }),
    {
        Reception { next: into_next(next) }
    }
}

impl Cashier {
    /// Take payment unless it was already taken; reports whether it was.
    pub fn handle(&self, patient: &mut Patient) -> (was_done: bool)
        ensures
            *final(patient) == (Patient { payment_done: true, ..*old(patient) }),
            was_done == old(patient).payment_done,
    {
        if patient.payment_done {
            true
        } else {
            patient.payment_done = true;
            false
        }
    }
}

impl Doctor {
    /// Perform the check-up unless it was already done; reports whether it
    /// was.
    pub fn handle(&self, patient: &mut Patient) -> (was_done: bool)
        ensures
            *final(patient) == (Patient { doctor_check_up_done: true, ..*old(patient) }),
            was_done == old(patient).doctor_check_up_done,
    {
        if patient.doctor_check_up_done {
            true
        } else {
            patient.doctor_check_up_done = true;
            false
        }
    }
}

impl Medical {
    /// Hand out the medicine unless it was already given; reports whether
    /// it was.
    pub fn handle(&self, patient: &mut Patient) -> (was_done: bool)
        ensures
            *final(patient) == (Patient { medical_done: true, ..*old(patient) }),
            was_done == old(patient).medical_done,
    {
        if patient.medical_done {
            true
        } else {
            patient.medical_done = true;
            false
        }
    }
}

impl Reception {
    /// Register the patient unless already registered; reports whether it
    /// was.
    pub fn handle(&self, patient: &mut Patient) -> (was_done: bool)
        ensures
            *final(patient) == (Patient { registration_done: true, ..*old(patient) }),
            was_done == old(patient).registration_done,
    {
        if patient.registration_done {
            true
        } else {
            patient.registration_done = true;
            false
        }
    }
}

impl Department {
    /// Run the patient through this department and every one chained behind
    /// it: each stage owned by a department of the chain ends up done, and
    /// nothing else of the record changes.
    pub fn execute(&self, patient: &mut Patient)
        ensures
            final(patient).name == old(patient).name,
            final(patient).registration_done == (old(patient).registration_done
                || chain_handles(*self, Stage::Registration)),
            final(patient).doctor_check_up_done == (old(patient).doctor_check_up_done
                || chain_handles(*self, Stage::DoctorCheckUp)),
            final(patient).medical_done == (old(patient).medical_done || chain_handles(
                *self,
                Stage::Medicine,
            )),
            final(patient).payment_done == (old(patient).payment_done || chain_handles(
                *self,
                Stage::Payment,
            )),
        decreases *self,
    {
        match self {
            Department::Cashier(c) => {
                c.handle(patient);
                if let Some(n) = &c.next {
                    n.execute(patient);
                }
            },
            Department::Doctor(c) => {
                c.handle(patient);
                if let Some(n) = &c.next {
                    n.execute(patient);
                }
            },
            Department::Medical(c) => {
                c.handle(patient);
                if let Some(n) = &c.next {
                    n.execute(patient);
                }
            },
            Department::Reception(c) => {
                c.handle(patient);
                if let Some(n) = &c.next {
                    n.execute(patient);
                }
            },
        }
    }
}

} // verus!
