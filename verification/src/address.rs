//! Addresses of processes on nodes.

use vstd::prelude::*;

verus! {

/// The identity of a process: its name, the package it belongs to, and the
/// node that published the package.
#[derive(Debug, PartialEq, Eq)]
pub struct ProcessId {
    pub process_name: String,
    pub package_name: String,
    pub publisher_node: String,
}

/// The mathematical value of a [`ProcessId`].
pub ghost struct ProcessIdView {
    pub process_name: Seq<char>,
    pub package_name: Seq<char>,
    pub publisher_node: Seq<char>,
}

impl View for ProcessId {
    type V = ProcessIdView;

    open spec fn view(&self) -> ProcessIdView {
        ProcessIdView {
            process_name: self.process_name@,
            package_name: self.package_name@,
            publisher_node: self.publisher_node@,
        }
    }
}

impl Clone for ProcessId {
    fn clone(&self) -> (res: Self)
        ensures
            res == *self,
    {
        ProcessId {
            process_name: self.process_name.clone(),
            package_name: self.package_name.clone(),
            publisher_node: self.publisher_node.clone(),
        }
    }
}

impl ProcessId {
    /// Builds a process identity from its three parts.
    pub fn new(process_name: &str, package_name: &str, publisher_node: &str) -> (res: Self)
        ensures
            res@.process_name == process_name@,
            res@.package_name == package_name@,
            res@.publisher_node == publisher_node@,
    {
        ProcessId {
            process_name: process_name.to_owned(),
            package_name: package_name.to_owned(),
            publisher_node: publisher_node.to_owned(),
        }
    }
}

/// A process on a node: where a message comes from or goes to.
#[derive(Debug, PartialEq, Eq)]
pub struct Address {
    pub node: String,
    pub process: ProcessId,
}

/// The mathematical value of an [`Address`].
pub ghost struct AddressView {
    pub node: Seq<char>,
    pub process: ProcessIdView,
}

impl View for Address {
    type V = AddressView;

    open spec fn view(&self) -> AddressView {
        AddressView { node: self.node@, process: self.process@ }
    }
}

impl Clone for Address {
    fn clone(&self) -> (res: Self)
        ensures
            res == *self,
    {
        Address { node: self.node.clone(), process: self.process.clone() }
    }
}

impl Address {
    /// The address of `process` on `node`.
    pub fn new(node: &str, process: ProcessId) -> (res: Self)
        ensures
            res@.node == node@,
            res.process == process,
    {
        Address { node: node.to_owned(), process }
    }

    /// The name of the node.
    pub fn node(&self) -> (res: &String)
        ensures
            res == self.node,
    {
        &self.node
    }
}

} // verus!
