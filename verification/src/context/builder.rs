//! The groups of intrinsic objects of the engine, and the builder that picks
//! the groups a new context is given.

use crate::context::Context;
use crate::error::Error;
use crate::runtime::Runtime;
use vstd::array::*;
use vstd::prelude::*;

verus! {

/// A group of intrinsic objects that the engine can be asked to register in a
/// context, in the order in which the groups are asked for. What is recorded
/// of a context is what was asked for: the engine may bring in more on its own,
/// as it brings in the regular-expression compiler with the regular
/// expressions.
#[derive(Clone, Copy, Debug, PartialEq, Eq)]
pub enum Intrinsic {
    BaseObjects,
    Date,
    Eval,
    StringNormalize,
    RegExpCompiler,
    RegExp,
    Json,
    Proxy,
    MapSet,
    TypedArrays,
    Promise,
    BigInt,
    BigFloat,
    BigDecimal,
    Operators,
}

/// The number of groups.
pub const INTRINSICS: usize = 15;

/// The group at a place of the registration order.
pub open spec fn intrinsic_at(i: int) -> Intrinsic {
    if i == 0 {
        Intrinsic::BaseObjects
    } else if i == 1 {
        Intrinsic::Date
    } else if i == 2 {
        Intrinsic::Eval
    } else if i == 3 {
        Intrinsic::StringNormalize
    } else if i == 4 {
        Intrinsic::RegExpCompiler
    } else if i == 5 {
        Intrinsic::RegExp
    } else if i == 6 {
        Intrinsic::Json
    } else if i == 7 {
        Intrinsic::Proxy
    } else if i == 8 {
        Intrinsic::MapSet
    } else if i == 9 {
        Intrinsic::TypedArrays
    } else if i == 10 {
        Intrinsic::Promise
    } else if i == 11 {
        Intrinsic::BigInt
    } else if i == 12 {
        Intrinsic::BigFloat
    } else if i == 13 {
        Intrinsic::BigDecimal
    } else {
        Intrinsic::Operators
    }
}

/// Whether the engine is asked for the group when it makes a context with all
/// standard functions: for all groups but the regular-expression compiler on
/// its own, big floats, big decimals and operator overloading.
pub open spec fn full_requests(group: Intrinsic) -> bool {
    !(group is RegExpCompiler || group is BigFloat || group is BigDecimal || group is Operators)
}

impl Intrinsic {
    /// The place of the group in the registration order.
    pub open spec fn index_spec(self) -> int {
        match self {
            Intrinsic::BaseObjects => 0,
            Intrinsic::Date => 1,
            Intrinsic::Eval => 2,
            Intrinsic::StringNormalize => 3,
            Intrinsic::RegExpCompiler => 4,
            Intrinsic::RegExp => 5,
            Intrinsic::Json => 6,
            Intrinsic::Proxy => 7,
            Intrinsic::MapSet => 8,
            Intrinsic::TypedArrays => 9,
            Intrinsic::Promise => 10,
            Intrinsic::BigInt => 11,
            Intrinsic::BigFloat => 12,
            Intrinsic::BigDecimal => 13,
            Intrinsic::Operators => 14,
        }
    }

    /// The place of the group in the registration order.
    pub fn index(self) -> (i: usize)
        ensures
            i == self.index_spec(),
            i < INTRINSICS,
            intrinsic_at(i as int) == self,
    {
        match self {
            Intrinsic::BaseObjects => 0,
            Intrinsic::Date => 1,
            Intrinsic::Eval => 2,
            Intrinsic::StringNormalize => 3,
            Intrinsic::RegExpCompiler => 4,
            Intrinsic::RegExp => 5,
            Intrinsic::Json => 6,
            Intrinsic::Proxy => 7,
            Intrinsic::MapSet => 8,
            Intrinsic::TypedArrays => 9,
            Intrinsic::Promise => 10,
            Intrinsic::BigInt => 11,
            Intrinsic::BigFloat => 12,
            Intrinsic::BigDecimal => 13,
            Intrinsic::Operators => 14,
        }
    }

    /// The group at a place of the registration order.
    pub fn at(i: usize) -> (group: Intrinsic)
        requires
            i < INTRINSICS,
        ensures
            group == intrinsic_at(i as int),
            group.index_spec() == i,
    {
        if i == 0 {
            Intrinsic::BaseObjects
        } else if i == 1 {
            Intrinsic::Date
        } else if i == 2 {
            Intrinsic::Eval
        } else if i == 3 {
            Intrinsic::StringNormalize
        } else if i == 4 {
            Intrinsic::RegExpCompiler
        } else if i == 5 {
            Intrinsic::RegExp
        } else if i == 6 {
            Intrinsic::Json
        } else if i == 7 {
            Intrinsic::Proxy
        } else if i == 8 {
            Intrinsic::MapSet
        } else if i == 9 {
            Intrinsic::TypedArrays
        } else if i == 10 {
            Intrinsic::Promise
        } else if i == 11 {
            Intrinsic::BigInt
        } else if i == 12 {
            Intrinsic::BigFloat
        } else if i == 13 {
            Intrinsic::BigDecimal
        } else {
            Intrinsic::Operators
        }
    }

    /// Whether the engine is asked for the group when it makes a context with
    /// all standard functions.
    pub fn is_requested_by_full(self) -> (r: bool)
        ensures
            r == full_requests(self),
    {
        match self {
            Intrinsic::RegExpCompiler | Intrinsic::BigFloat | Intrinsic::BigDecimal
            | Intrinsic::Operators => false,
            _ => true,
        }
    }
}

/// For a context with only the required functions the engine is asked for
/// strictly fewer groups of intrinsic objects than for one with all standard
/// functions: every group asked for the first is asked for the second, and a
/// group is asked for the second that is not asked for the first.
pub proof fn lemma_base_requests_fewer(base: Context, full: Context)
    requires
        forall|group: Intrinsic| !#[trigger] base.requested(group),
        forall|group: Intrinsic| #[trigger] full.requested(group) == full_requests(group),
    ensures
        forall|group: Intrinsic| base.requested(group) ==> full.requested(group),
        exists|group: Intrinsic| full.requested(group) && !base.requested(group),
{
    assert(full_requests(Intrinsic::BaseObjects));
    assert(full.requested(Intrinsic::BaseObjects));
    assert(!base.requested(Intrinsic::BaseObjects));
}

/// Collects the groups of intrinsic objects to ask for in a new context of a
/// runtime.
#[derive(Debug)]
pub struct ContextBuilder {
    rt: usize,
    enabled: [bool; 15],
}

impl ContextBuilder {
    #[verifier::type_invariant]
    spec fn well_formed(self) -> bool {
        self.rt != 0
    }

    /// The native handle of the runtime that the context will belong to.
    pub closed spec fn runtime_spec(&self) -> usize {
        self.rt
    }

    /// Whether the group is asked for.
    pub closed spec fn requested(&self, group: Intrinsic) -> bool {
        self.enabled@[group.index_spec()]
    }

    /// A builder for a context of `runtime` with no group asked for.
    pub fn new(runtime: &Runtime) -> (builder: ContextBuilder)
        ensures
            builder.runtime_spec() == runtime.handle_spec(),
            forall|group: Intrinsic| !builder.requested(group),
    {
        ContextBuilder { rt: runtime.handle(), enabled: array_fill_for_copy_types(false) }
    }

    /// The builder that asks for the groups of a context with all standard
    /// functions, and for no other.
    pub fn full(self) -> (builder: ContextBuilder)
        ensures
            builder.runtime_spec() == self.runtime_spec(),
            forall|group: Intrinsic| #[trigger] builder.requested(group) == full_requests(group),
    {
        proof {
            use_type_invariant(&self);
        }
        let mut enabled: [bool; 15] = array_fill_for_copy_types(false);
        let mut i: usize = 0;
        while i < INTRINSICS
            invariant
                i <= INTRINSICS,
                forall|j: int| 0 <= j < i ==> enabled@[j] == full_requests(#[trigger] intrinsic_at(j)),
            decreases INTRINSICS - i,
        {
            enabled.set(i, Intrinsic::at(i).is_requested_by_full());
            i += 1;
        }
        let builder = ContextBuilder { rt: self.rt, enabled };
        assert forall|group: Intrinsic| #[trigger] builder.requested(group) == full_requests(group) by {
            assert(intrinsic_at(group.index_spec()) == group);
        }
        builder
    }

    /// The builder with `group` asked for or not, as `enable` says, and every
    /// other group as before.
    pub fn intrinsic(self, group: Intrinsic, enable: bool) -> (builder: ContextBuilder)
        ensures
            builder.runtime_spec() == self.runtime_spec(),
            builder.requested(group) == enable,
            forall|other: Intrinsic|
                other != group ==> #[trigger] builder.requested(other) == self.requested(other),
    {
        proof {
            use_type_invariant(&self);
        }
        let mut enabled = self.enabled;
        enabled.set(group.index(), enable);
        ContextBuilder { rt: self.rt, enabled }
    }

    /// Whether the group is asked for.
    pub fn is_requested(&self, group: Intrinsic) -> (r: bool)
        ensures
            r == self.requested(group),
    {
        self.enabled[group.index()]
    }

    /// The groups to ask the engine for in the new context, in order: each
    /// group asked for once and no other.
    pub fn intrinsics(&self) -> (groups: Vec<Intrinsic>)
        ensures
            forall|group: Intrinsic|
                #![trigger groups@.contains(group)]
                #![trigger self.requested(group)]
                groups@.contains(group) == self.requested(group),
            forall|i: int, j: int|
                0 <= i < j < groups@.len() ==> groups@[i].index_spec() < groups@[j].index_spec(),
    {
        let mut groups: Vec<Intrinsic> = Vec::new();
        let mut i: usize = 0;
        while i < INTRINSICS
            invariant
                i <= INTRINSICS,
                forall|k: int| 0 <= k < groups@.len() ==> (#[trigger] groups@[k]).index_spec() < i,
                forall|k: int| 0 <= k < groups@.len() ==> self.requested(#[trigger] groups@[k]),
                forall|g: Intrinsic|
                    g.index_spec() < i && self.requested(g) ==> #[trigger] groups@.contains(g),
                forall|a: int, b: int|
                    0 <= a < b < groups@.len() ==> groups@[a].index_spec()
                        < groups@[b].index_spec(),
            decreases INTRINSICS - i,
        {
            let group = Intrinsic::at(i);
            let ghost before = groups@;
            if self.enabled[i] {
                groups.push(group);
                assert(groups@[before.len() as int] == group);
                assert forall|g: Intrinsic|
                    g.index_spec() < i + 1 && self.requested(g) implies #[trigger] groups@.contains(
                    g,
                ) by {
                    if g.index_spec() < i {
                        assert(before.contains(g));
                        let k = choose|k: int| 0 <= k < before.len() && before[k] == g;
                        assert(groups@[k] == g);
                    } else {
                        assert(intrinsic_at(g.index_spec()) == g);
                    }
                }
            } else {
                assert forall|g: Intrinsic|
                    g.index_spec() < i + 1 && self.requested(g) implies #[trigger] groups@.contains(
                    g,
                ) by {
                    if g.index_spec() == i {
                        assert(intrinsic_at(g.index_spec()) == g);
                    }
                }
            }
            i += 1;
        }
        assert forall|group: Intrinsic| groups@.contains(group) == self.requested(group) by {
            if groups@.contains(group) {
                let k = choose|k: int| 0 <= k < groups@.len() && groups@[k] == group;
                assert(self.requested(groups@[k]));
            }
        }
        groups
    }

    /// The context around the handle that the engine returned for a new
    /// context, with the record of the groups asked for; a null handle means
    /// that the engine could not allocate one.
    pub fn build(self, raw: usize) -> (r: Result<Context, Error>)
        ensures
            match r {
                Ok(context) => raw != 0 && context.handle_spec() == raw && context.runtime_spec()
                    == self.runtime_spec() && forall|group: Intrinsic|
                    #[trigger] context.requested(group) == self.requested(group),
                Err(e) => raw == 0 && e@ == crate::error::ErrorView::Allocation,
            },
    {
        proof {
            use_type_invariant(&self);
        }
        Context::from_parts(raw, self.rt, self.enabled)
    }
}

} // verus!
