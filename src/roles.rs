//! The role of a node as a choice record, as role announcements carry it.

use vstd::prelude::*;

verus! {

/// The coordinating role.
#[derive(Clone, Copy, Debug, PartialEq, Eq, Default)]
pub struct Coordinator {}

/// The executing role.
#[derive(Clone, Copy, Debug, PartialEq, Eq, Default)]
pub struct Executor {}

/// The auditing role.
#[derive(Clone, Copy, Debug, PartialEq, Eq, Default)]
pub struct Referee {}

/// The development role.
#[derive(Clone, Copy, Debug, PartialEq, Eq, Default)]
pub struct Development {}

/// One of the four working roles.
#[derive(Clone, Copy, Debug, PartialEq, Eq)]
pub enum Method {
    Coordinator(Coordinator),
    Executor(Executor),
    Referee(Referee),
    Development(Development),
}

/// A working role, if one is set.
#[derive(Clone, Copy, Debug, PartialEq, Eq, Default)]
pub struct NodeType {
    pub method: Option<Method>,
}

} // verus!
