//! Changes to environment variables that an installed tool brings along.

use vstd::prelude::*;
use vstd::string::StringExecFns;

verus! {

/// When a change is visible.
#[derive(Clone, Copy, Debug, PartialEq, Eq, Structural)]
pub enum Scope {
    /// While the application is built.
    Build,
    /// When the built application is launched.
    Launch,
    /// Both while building and at launch.
    All,
}

/// How a change treats the value that a variable already has.
#[derive(Clone, Copy, Debug, PartialEq, Eq, Structural)]
pub enum Change {
    /// The new value is put in front of the present one.
    Prepend,
    /// The new value replaces the present one.
    Replace,
}

/// One change to one variable.
#[derive(Clone, Debug, PartialEq, Eq)]
pub struct Mutation {
    pub scope: Scope,
    pub change: Change,
    pub name: String,
    pub value: String,
}

/// The mathematical value of a [`Mutation`].
pub struct MutationView {
    pub scope: Scope,
    pub change: Change,
    pub name: Seq<char>,
    pub value: Seq<char>,
}

impl View for Mutation {
    type V = MutationView;

    open spec fn view(&self) -> MutationView {
        MutationView {
            scope: self.scope,
            change: self.change,
            name: self.name@,
            value: self.value@,
        }
    }
}

/// The changes that installing a tool asks for, in the order they apply.
#[derive(Clone, Debug, PartialEq, Eq)]
pub struct ToolEnvironment {
    pub mutations: Vec<Mutation>,
}

impl View for ToolEnvironment {
    type V = Seq<MutationView>;

    open spec fn view(&self) -> Seq<MutationView> {
        Seq::new(self.mutations@.len(), |i: int| self.mutations@[i]@)
    }
}

impl Scope {
    /// Whether a change of this scope is visible during the build.
    pub open spec fn covers_build(self) -> bool {
        self == Scope::Build || self == Scope::All
    }

    /// Whether a change of this scope is visible at launch.
    pub open spec fn covers_launch(self) -> bool {
        self == Scope::Launch || self == Scope::All
    }

    /// Whether a change of this scope is visible during the build.
    pub fn at_build(&self) -> (r: bool)
        ensures
            r == self.covers_build(),
    {
        match self {
            Scope::Build => true,
            Scope::Launch => false,
            Scope::All => true,
        }
    }

    /// Whether a change of this scope is visible at launch.
    pub fn at_launch(&self) -> (r: bool)
        ensures
            r == self.covers_launch(),
    {
        match self {
            Scope::Build => false,
            Scope::Launch => true,
            Scope::All => true,
        }
    }
}

/// The environment of a tool whose executables lie in `bin_dir`: that
/// directory goes in front of the search path, during the build and at
/// launch.
pub fn tool_environment(bin_dir: String) -> (r: ToolEnvironment)
    ensures
        r@ == seq![
            MutationView {
                scope: Scope::All,
                change: Change::Prepend,
                name: "PATH"@,
                value: bin_dir@,
            },
        ],
        r@[0].scope.covers_build() && r@[0].scope.covers_launch(),
{
    let mut mutations: Vec<Mutation> = Vec::new();
    mutations.push(
        Mutation {
            scope: Scope::All,
            change: Change::Prepend,
            name: String::from_str("PATH"),
            value: bin_dir,
        },
    );
    let r = ToolEnvironment { mutations };
    assert(r@ =~= seq![
        MutationView {
            scope: Scope::All,
            change: Change::Prepend,
            name: "PATH"@,
            value: bin_dir@,
        },
    ]);
    r
}

} // verus!
