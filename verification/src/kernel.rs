//! A compiled entry point and the commands of its dispatch.

use crate::bindings::bind_group_of;
use crate::bindings::BindGroupEntry;
use crate::bindings::LayoutMismatch;
use crate::bindings::SetBindings;
use crate::entry_type::EntryType;
use crate::layout::SetLayout;
use vstd::prelude::*;

verus! {

/// One command of a compute pass.
#[derive(Debug)]
pub enum Command<'a> {
    /// Bind the kernel's pipeline.
    SetPipeline,
    /// Bind a group of resources to the set with the given index.
    SetBindGroup {
        /// The index of the set.
        index: u32,
        /// The slots of the set and what they hold.
        entries: Vec<BindGroupEntry>,
    },
    /// Mark the pass with the name of the entry point.
    InsertDebugMarker(&'a str),
    /// Run the given number of workgroups in each dimension.
    DispatchWorkgroups {
        /// Workgroups in the first dimension.
        x: u32,
        /// Workgroups in the second dimension.
        y: u32,
        /// Workgroups in the third dimension.
        z: u32,
    },
}

/// What a command says, with sequences in place of vectors and strings.
pub ghost enum CommandView {
    /// Bind the kernel's pipeline.
    SetPipeline,
    /// Bind a group of resources to a set.
    SetBindGroup { index: u32, entries: Seq<BindGroupEntry> },
    /// Mark the pass.
    InsertDebugMarker(Seq<char>),
    /// Run workgroups.
    DispatchWorkgroups { x: u32, y: u32, z: u32 },
}

impl<'a> View for Command<'a> {
    type V = CommandView;

    open spec fn view(&self) -> CommandView {
        match *self {
            Command::SetPipeline => CommandView::SetPipeline,
            Command::SetBindGroup { index, entries } => CommandView::SetBindGroup {
                index,
                entries: entries@,
            },
            Command::InsertDebugMarker(name) => CommandView::InsertDebugMarker(name@),
            Command::DispatchWorkgroups { x, y, z } => CommandView::DispatchWorkgroups { x, y, z },
        }
    }
}

/// What each command of a sequence says.
pub open spec fn views_of(commands: Seq<Command>) -> Seq<CommandView> {
    Seq::new(commands.len(), |i: int| commands[i]@)
}

/// The binding groups of the first `count` binding sets.
pub open spec fn bind_groups_of(bindings: Seq<SetBindings>, count: int) -> Seq<
    Seq<BindGroupEntry>,
> {
    Seq::new(count as nat, |i: int| bind_group_of(bindings[i]@))
}

/// The commands of one dispatch, in the order in which they are recorded:
/// the pipeline, then each binding group under the index of its set, then
/// the marker, then the dispatch itself.
pub open spec fn dispatch_commands(
    name: Seq<char>,
    groups: Seq<Seq<BindGroupEntry>>,
    x: u32,
    y: u32,
    z: u32,
) -> Seq<CommandView> {
    seq![CommandView::SetPipeline] + Seq::new(
        groups.len(),
        |i: int| CommandView::SetBindGroup { index: i as u32, entries: groups[i] },
    ) + seq![
        CommandView::InsertDebugMarker(name),
        CommandView::DispatchWorkgroups { x, y, z },
    ]
}

/// The first binding set that does not fit its layout, and why.
#[derive(Clone, Copy, Debug, PartialEq, Eq, Structural)]
pub struct SetMismatch {
    /// The index of the set.
    pub set: usize,
    /// What is wrong with it.
    pub mismatch: LayoutMismatch,
}

/// Number of workgroups of `workgroup_size` invocations that cover
/// `elements` elements.
pub open spec fn workgroups_for(elements: int, workgroup_size: int) -> int {
    (elements + workgroup_size - 1) / workgroup_size
}

/// The workgroups that `workgroups_for` counts cover all the elements, and
/// one workgroup fewer would not.
pub proof fn lemma_workgroups_cover(elements: int, workgroup_size: int)
    requires
        0 <= elements,
        0 < workgroup_size,
    ensures
        workgroups_for(elements, workgroup_size) * workgroup_size >= elements,
        (workgroups_for(elements, workgroup_size) - 1) * workgroup_size < elements,
        0 <= workgroups_for(elements, workgroup_size) <= elements,
{
    let total = elements + workgroup_size - 1;
    let count = total / workgroup_size;
    let rest = total % workgroup_size;
    vstd::arithmetic::div_mod::lemma_fundamental_div_mod(total, workgroup_size);
    vstd::arithmetic::div_mod::lemma_mod_bound(total, workgroup_size);
    assert(count * workgroup_size == total - rest) by (nonlinear_arith)
        requires
            total == workgroup_size * count + rest,
    ;
    assert(0 <= count <= elements) by (nonlinear_arith)
        requires
            count * workgroup_size == total - rest,
            0 <= rest < workgroup_size,
            total == elements + workgroup_size - 1,
            0 <= elements,
            0 < workgroup_size,
    ;
    assert((count - 1) * workgroup_size == count * workgroup_size - workgroup_size)
        by (nonlinear_arith);
}

/// Number of workgroups to dispatch for `elements` elements where the shader
/// declares workgroups of `workgroup_size` invocations. A dispatch counts
/// workgroups, not elements: this is the division that a caller owes.
pub fn workgroup_count(elements: u32, workgroup_size: u32) -> (count: u32)
    requires
        workgroup_size > 0,
    ensures
        count == workgroups_for(elements as int, workgroup_size as int),
{
    proof {
        lemma_workgroups_cover(elements as int, workgroup_size as int);
    }
    let total: u64 = elements as u64 + workgroup_size as u64 - 1;
    (total / (workgroup_size as u64)) as u32
}

/// An entry point of a shader together with the kinds that each of its sets
/// expects.
#[derive(Debug)]
pub struct Kernel<'a> {
    entry_types: Vec<Vec<EntryType>>,
    function_name: &'a str,
}

impl<'a> Kernel<'a> {
    #[verifier::type_invariant]
    closed spec fn indexable(self) -> bool {
        self.entry_types@.len() <= u32::MAX
    }

    /// The kinds that each set expects, in set order.
    pub closed spec fn spec_entry_types(&self) -> Seq<Seq<EntryType>> {
        Seq::new(self.entry_types@.len(), |i: int| self.entry_types@[i]@)
    }

    /// The name of the entry point.
    pub closed spec fn spec_function_name(&self) -> Seq<char> {
        self.function_name@
    }

    /// Number of binding sets that a dispatch binds: those given, but no
    /// more than the kernel has layouts for.
    pub open spec fn bound_sets(&self, bindings: Seq<SetBindings>) -> int {
        if bindings.len() <= self.spec_entry_types().len() {
            bindings.len() as int
        } else {
            self.spec_entry_types().len() as int
        }
    }

    /// Every binding set that a dispatch binds fits the layout of its set.
    pub open spec fn accepts(&self, bindings: Seq<SetBindings>) -> bool {
        forall|i: int|
            0 <= i < self.bound_sets(bindings) ==> (#[trigger] bindings[i]).fits(
                self.spec_entry_types()[i],
            )
    }

    /// A kernel for the entry point `function_name` with one layout for each
    /// of its sets.
    pub fn new(function_name: &'a str, layouts: Vec<SetLayout>) -> (kernel: Kernel<'a>)
        requires
            layouts@.len() <= u32::MAX,
        ensures
            kernel.spec_function_name() == function_name@,
            kernel.spec_entry_types() == Seq::new(
                layouts@.len(),
                |i: int| layouts@[i].spec_entry_types(),
            ),
    {
        let mut entry_types: Vec<Vec<EntryType>> = Vec::new();
        let mut i: usize = 0;
        while i < layouts.len()
            invariant
                i <= layouts@.len(),
                entry_types@.len() == i,
                forall|j: int| 0 <= j < i ==> entry_types@[j]@ == layouts@[j].spec_entry_types(),
            decreases layouts@.len() - i,
        {
            entry_types.push(layouts[i].entry_types());
            i += 1;
        }
        let kernel = Kernel { entry_types, function_name };
        assert(kernel.spec_entry_types() =~= Seq::new(
            layouts@.len(),
            |i: int| layouts@[i].spec_entry_types(),
        ));
        kernel
    }

    /// Number of sets that the kernel has layouts for.
    pub fn sets(&self) -> (count: usize)
        ensures
            count == self.spec_entry_types().len(),
    {
        self.entry_types.len()
    }

    /// Reconciles each binding set with the layout of its set, in set order,
    /// and names the first that does not fit.
    pub fn check_bindings(&self, bindings: &Vec<SetBindings>) -> (outcome: Result<
        (),
        SetMismatch,
    >)
        ensures
            outcome is Ok <==> self.accepts(bindings@),
            outcome is Err ==> {
                let set = outcome->Err_0.set as int;
                &&& 0 <= set < self.bound_sets(bindings@)
                &&& !bindings@[set].fits(self.spec_entry_types()[set])
                &&& forall|i: int|
                    0 <= i < set ==> (#[trigger] bindings@[i]).fits(self.spec_entry_types()[i])
                &&& (outcome->Err_0.mismatch == LayoutMismatch::Length <==> bindings@[set]@.len()
                    != self.spec_entry_types()[set].len())
            },
    {
        let count: usize = if bindings.len() <= self.entry_types.len() {
            bindings.len()
        } else {
            self.entry_types.len()
        };
        let mut i: usize = 0;
        while i < count
            invariant
                i <= count,
                count == self.bound_sets(bindings@),
                forall|j: int|
                    0 <= j < i ==> (#[trigger] bindings@[j]).fits(self.spec_entry_types()[j]),
            decreases count - i,
        {
            match bindings[i].check_layout(&self.entry_types[i]) {
                Ok(()) => {},
                Err(mismatch) => {
                    return Err(SetMismatch { set: i, mismatch });
                },
            }
            i += 1;
        }
        Ok(())
    }

    /// Records the commands of one dispatch of `x`, `y` and `z` workgroups
    /// with the given binding sets, matched to the kernel's sets by
    /// position. The counts are workgroups, not elements. Every set that is
    /// bound has to fit its layout.
    pub fn run(&self, bindings: Vec<SetBindings>, x: u32, y: u32, z: u32) -> (commands: Vec<
        Command<'a>,
    >)
        requires
            self.accepts(bindings@),
        ensures
            views_of(commands@) == dispatch_commands(
                self.spec_function_name(),
                bind_groups_of(bindings@, self.bound_sets(bindings@)),
                x,
                y,
                z,
            ),
    {
        proof {
            use_type_invariant(self);
        }
        let count: usize = if bindings.len() <= self.entry_types.len() {
            bindings.len()
        } else {
            self.entry_types.len()
        };
        let mut commands: Vec<Command<'a>> = Vec::new();
        commands.push(Command::SetPipeline);
        let mut i: usize = 0;
        while i < count
            invariant
                i <= count,
                count == self.bound_sets(bindings@),
                count <= u32::MAX,
                self.accepts(bindings@),
                commands@.len() == i + 1,
                commands@[0]@ == CommandView::SetPipeline,
                forall|j: int|
                    0 <= j < i ==> (#[trigger] commands@[j + 1])@ == (CommandView::SetBindGroup {
                        index: j as u32,
                        entries: bind_group_of(bindings@[j]@),
                    }),
            decreases count - i,
        {
            let entries = bindings[i].to_bind_group(&self.entry_types[i]);
            commands.push(Command::SetBindGroup { index: i as u32, entries });
            i += 1;
        }
        commands.push(Command::InsertDebugMarker(self.function_name));
        commands.push(Command::DispatchWorkgroups { x, y, z });
        proof {
            let expected = dispatch_commands(
                self.spec_function_name(),
                bind_groups_of(bindings@, self.bound_sets(bindings@)),
                x,
                y,
                z,
            );
            let got = views_of(commands@);
            assert(got.len() == expected.len());
            assert forall|k: int| 0 <= k < got.len() implies got[k] == expected[k] by {
                if 1 <= k <= count {
                    let j = k - 1;
                    assert(commands@[j + 1]@ == (CommandView::SetBindGroup {
                        index: j as u32,
                        entries: bind_group_of(bindings@[j]@),
                    }));
                }
            }
            assert(got =~= expected);
        }
        commands
    }
}

} // verus!
