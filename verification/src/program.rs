//! An entry point of a shader with the resources bound to it.

use crate::descriptor_set::DescriptorSet;
use vstd::prelude::*;

verus! {

/// The name of an entry point and its descriptor sets, in set order.
pub struct Program {
    entry_point: String,
    descriptors: Vec<DescriptorSet>,
}

impl Program {
    /// The name of the entry point.
    pub closed spec fn spec_entry_point(&self) -> Seq<char> {
        self.entry_point@
    }

    /// The descriptor sets, in the order in which they were added.
    pub closed spec fn spec_descriptors(&self) -> Seq<DescriptorSet> {
        self.descriptors@
    }

    /// A program for the entry point of the given name, without any set.
    pub fn new(entry_point: String) -> (program: Program)
        ensures
            program.spec_entry_point() == entry_point@,
            program.spec_descriptors() == Seq::<DescriptorSet>::empty(),
    {
        Program { entry_point, descriptors: Vec::new() }
    }

    /// The program with one more descriptor set behind those it has.
    pub fn add_descriptor_set(self, desc: DescriptorSet) -> (program: Program)
        ensures
            program.spec_entry_point() == self.spec_entry_point(),
            program.spec_descriptors() == self.spec_descriptors().push(desc),
    {
        let mut program = self;
        program.descriptors.push(desc);
        program
    }

    /// The name of the entry point.
    pub fn entry_point(&self) -> (name: &String)
        ensures
            name@ == self.spec_entry_point(),
    {
        &self.entry_point
    }

    /// The descriptor sets, in the order in which they were added.
    pub fn descriptors(&self) -> (sets: &Vec<DescriptorSet>)
        ensures
            sets@ == self.spec_descriptors(),
    {
        &self.descriptors
    }
}

} // verus!
