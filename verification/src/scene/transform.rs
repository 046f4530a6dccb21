//! Transforms and their parent chains.

use vstd::prelude::*;

verus! {

/// A transform relative to a parent entity: a 4x4 matrix of single-precision
/// bit patterns, column by column, and the parent's entity index.
#[derive(Clone, Copy, Debug, PartialEq, Eq)]
pub struct LocalTransform {
    pub transform: [[u32; 4]; 4],
    pub parent: Option<usize>,
}

/// The matrix that changes nothing.
pub open spec fn spec_identity() -> [[u32; 4]; 4] {
    [
        [crate::gpu::F32_ONE, 0, 0, 0],
        [0, crate::gpu::F32_ONE, 0, 0],
        [0, 0, crate::gpu::F32_ONE, 0],
        [0, 0, 0, crate::gpu::F32_ONE],
    ]
}

/// Why a world transform cannot be resolved.
#[derive(Clone, Copy, Debug, PartialEq, Eq, Structural)]
pub enum TransformError {
    /// The parent chain does not end: it runs into a cycle.
    Cycle,
}

/// The entity that transform storage `storage` holds a transform for at
/// `parent`, if it holds one.
pub open spec fn spec_lookup(storage: Seq<Option<LocalTransform>>, parent: Option<usize>) -> Option<
    LocalTransform,
> {
    match parent {
        Some(id) => if id < storage.len() {
            storage[id as int]
        } else {
            None
        },
        None => None,
    }
}

/// The entities met while following parents from `parent`, nearest first, for
/// at most `steps` steps. The walk ends at an entity without parent, or whose
/// parent has no transform.
pub open spec fn spec_chain(storage: Seq<Option<LocalTransform>>, parent: Option<usize>, steps: nat) -> Seq<
    usize,
>
    decreases steps,
{
    match spec_lookup(storage, parent) {
        Some(component) => if steps == 0 {
            Seq::empty()
        } else {
            seq![parent.unwrap()] + spec_chain(storage, component.parent, (steps - 1) as nat)
        },
        None => Seq::empty(),
    }
}

/// Following parents from `parent` comes to an end within `steps` steps.
pub open spec fn spec_chain_ends(
    storage: Seq<Option<LocalTransform>>,
    parent: Option<usize>,
    steps: nat,
) -> bool
    decreases steps,
{
    match spec_lookup(storage, parent) {
        Some(component) => steps > 0 && spec_chain_ends(
            storage,
            component.parent,
            (steps - 1) as nat,
        ),
        None => true,
    }
}

/// Every parent in `storage` is an entity created before its child.
pub open spec fn spec_parents_first(storage: Seq<Option<LocalTransform>>) -> bool {
    forall|i: int|
        0 <= i < storage.len() ==> match #[trigger] storage[i] {
            Some(component) => match component.parent {
                Some(parent) => parent < i,
                None => true,
            },
            None => true,
        }
}

impl LocalTransform {
    /// The identity transform below `parent`.
    pub fn identity(parent: Option<usize>) -> (transform: LocalTransform)
        ensures
            transform == (LocalTransform { transform: spec_identity(), parent }),
    {
        LocalTransform {
            transform: [
                [crate::gpu::F32_ONE, 0, 0, 0],
                [0, crate::gpu::F32_ONE, 0, 0],
                [0, 0, crate::gpu::F32_ONE, 0],
                [0, 0, 0, crate::gpu::F32_ONE],
            ],
            parent,
        }
    }

    /// The matrix of this transform.
    pub fn local_transform(&self) -> (matrix: [[u32; 4]; 4])
        ensures
            matrix == self.transform,
    {
        self.transform
    }

    /// The entities whose transforms apply on top of this one, nearest first:
    /// the parent, its parent, and so on. The world transform is the product
    /// of their matrices, farthest first, with this transform's matrix last.
    /// A chain that has not ended after as many steps as there are entities
    /// runs in a cycle.
    pub fn world_transform(&self, storage: &Vec<Option<LocalTransform>>) -> (chain: Result<
        Vec<usize>,
        TransformError,
    >)
        ensures
            match chain {
                Ok(ancestors) => {
                    &&& spec_chain_ends(storage@, self.parent, storage@.len())
                    &&& ancestors@ == spec_chain(storage@, self.parent, storage@.len())
                },
                Err(error) => {
                    &&& error == TransformError::Cycle
                    &&& !spec_chain_ends(storage@, self.parent, storage@.len())
                },
            },
    {
        let mut ancestors: Vec<usize> = Vec::new();
        let mut parent: Option<usize> = self.parent;
        let mut steps: usize = storage.len();
        loop
            invariant
                steps <= storage@.len(),
                spec_chain_ends(storage@, self.parent, storage@.len()) == spec_chain_ends(
                    storage@,
                    parent,
                    steps as nat,
                ),
                spec_chain(storage@, self.parent, storage@.len()) == ancestors@ + spec_chain(
                    storage@,
                    parent,
                    steps as nat,
                ),
            decreases steps,
        {
            let component: LocalTransform = match parent {
                Some(id) => {
                    if id < storage.len() {
                        match storage[id] {
                            Some(component) => component,
                            None => {
                                return Ok(ancestors);
                            },
                        }
                    } else {
                        return Ok(ancestors);
                    }
                },
                None => {
                    return Ok(ancestors);
                },
            };
            if steps == 0 {
                return Err(TransformError::Cycle);
            }
            let ghost before = ancestors@;
            ancestors.push(parent.unwrap());
            proof {
                assert(ancestors@ + spec_chain(storage@, component.parent, (steps - 1) as nat)
                    =~= before + (seq![parent.unwrap()] + spec_chain(
                    storage@,
                    component.parent,
                    (steps - 1) as nat,
                )));
            }
            parent = component.parent;
            steps = steps - 1;
        }
    }
}

/// Where every parent was created before its child, a chain that starts at
/// an entity below `bound` ends within `bound` steps.
pub proof fn lemma_chain_ends(storage: Seq<Option<LocalTransform>>, parent: Option<usize>, bound: nat)
    requires
        spec_parents_first(storage),
        match parent {
            Some(id) => id < bound,
            None => true,
        },
    ensures
        spec_chain_ends(storage, parent, bound),
    decreases bound,
{
    match spec_lookup(storage, parent) {
        Some(component) => {
            let id = parent.unwrap();
            assert(storage[id as int] == Some(component));
            lemma_chain_ends(storage, component.parent, (bound - 1) as nat);
        },
        None => {},
    }
}

/// Where every parent was created before its child there is no cycle: the
/// world transform of every entity of the storage can be resolved.
pub proof fn lemma_parents_first_resolves(storage: Seq<Option<LocalTransform>>, entity: int)
    requires
        spec_parents_first(storage),
        0 <= entity < storage.len(),
        storage[entity].is_some(),
    ensures
        spec_chain_ends(storage, storage[entity].unwrap().parent, storage.len()),
{
    lemma_chain_ends(storage, storage[entity].unwrap().parent, storage.len());
}

} // verus!
