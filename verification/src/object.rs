//! The higher-level object/linking model that composes target machines into a
//! graph. This stage only carries these records; a separate stage consumes
//! them.
use vstd::prelude::*;

verus! {

use vstd::string::StringExecFns;
use crate::text::str_eq;

/// One named parameter of an instruction or function.
pub struct Param {
    pub name: String,
}

/// The input and output parameter lists of an instruction or function.
pub struct Params {
    pub inputs: Vec<Param>,
    pub outputs: Vec<Param>,
}

/// Where a machine instance lives in the machine tree: a path of name limbs.
#[derive(Debug)]
pub struct Location {
    limbs: Vec<String>,
}

impl View for Location {
    type V = Seq<Seq<char>>;

    closed spec fn view(&self) -> Seq<Seq<char>> {
        self.limbs@.map_values(|l: String| l@)
    }
}

impl Location {
    /// The root location.
    pub fn main() -> (r: Self)
        ensures
            r@ == seq!["main"@],
    {
        let mut limbs: Vec<String> = Vec::new();
        limbs.push(String::from_str("main"));
        let r = Location { limbs };
        proof {
            assert(r@ =~= seq!["main"@]);
        }
        r
    }

    /// Extends the path by one limb.
    pub fn join(self, limb: String) -> (r: Self)
        ensures
            r@ == self@.push(limb@),
    {
        let mut limbs = self.limbs;
        let ghost prev = limbs@;
        limbs.push(limb);
        let r = Location { limbs };
        proof {
            assert(r@ =~= prev.map_values(|l: String| l@).push(limb@));
        }
        r
    }
}

impl PartialEq for Location {
    /// Two locations are equal when their limb paths are.
    fn eq(&self, other: &Location) -> (r: bool)
        ensures
            r == (self@ == other@),
    {
        if self.limbs.len() != other.limbs.len() {
            proof {
                assert(self@.len() != other@.len());
            }
            return false;
        }
        let mut i: usize = 0;
        while i < self.limbs.len()
            invariant
                i <= self.limbs.len(),
                self@.len() == self.limbs@.len(),
                other@.len() == other.limbs@.len(),
                self.limbs@.len() == other.limbs@.len(),
                forall|j: int| 0 <= j < i ==> self@[j] == other@[j],
            decreases self.limbs.len() - i,
        {
            proof {
                assert(self@[i as int] == self.limbs@[i as int]@);
                assert(other@[i as int] == other.limbs@[i as int]@);
            }
            if !str_eq(self.limbs[i].as_str(), other.limbs[i].as_str()) {
                return false;
            }
            i += 1;
        }
        proof {
            assert(self@ =~= other@);
        }
        true
    }
}

impl vstd::std_specs::cmp::PartialEqSpecImpl for Location {
    open spec fn obeys_eq_spec() -> bool {
        true
    }

    open spec fn eq_spec(&self, other: &Location) -> bool {
        self@ == other@
    }
}

/// One machine instance: its location, its latch column and its function-id
/// column.
pub struct Machine {
    pub location: Location,
    pub latch: String,
    pub function_id: String,
}

/// One polynomial-identity statement, carried opaquely by this stage: its
/// source text and the value it fixes, when it fixes one.
pub struct PilStatement<T> {
    pub text: String,
    pub value: Option<T>,
}

/// The instruction on the calling side of a link.
pub struct Instr {
    pub name: String,
    pub flag: String,
    pub params: Params,
}

/// A function of a machine.
pub struct Function<T> {
    pub name: String,
    pub id: T,
    pub params: Params,
}

/// The calling side of a link.
pub struct LinkFrom {
    pub instr: Instr,
}

/// The called side of a link: the machine linked to and the function linked
/// to.
pub struct LinkTo<T> {
    pub machine: Machine,
    pub function: Function<T>,
}

/// One link from a machine to one of its children.
pub struct Link<T> {
    pub from: LinkFrom,
    pub to: LinkTo<T>,
}

/// One machine of the graph: its degree, its polynomial identities and its
/// links to its children.
pub struct Object<T> {
    pub degree: Option<u64>,
    pub pil: Vec<PilStatement<T>>,
    pub links: Vec<Link<T>>,
}

impl<T> Object<T> {
    /// The same object with the given degree.
    pub fn with_degree(self, degree: Option<u64>) -> (r: Self)
        ensures
            r.degree == degree,
            r.pil == self.pil,
            r.links == self.links,
    {
        Object { degree, pil: self.pil, links: self.links }
    }
}

/// The whole composed graph: the main machine, its entry points, and every
/// machine object keyed by its location (in insertion order, locations
/// unique).
pub struct PILGraph<T> {
    pub main: Machine,
    pub entry_points: Vec<Function<T>>,
    pub objects: Vec<(Location, Object<T>)>,
}

} // verus!
