//! Selection of the one render pipeline's primitive settings.
//!
//! The first command-line argument may name a primitive topology; four
//! names are recognised and anything else, including an absent argument,
//! falls back to the point-list default. A strip topology additionally
//! selects the 32-bit strip index format.

use vstd::prelude::*;

use crate::text::str_eq;

verus! {

/// How a vertex stream is grouped into primitives.
#[derive(Clone, Copy, Debug, PartialEq, Eq, Structural)]
pub enum Topology {
    PointList,
    LineList,
    LineStrip,
    TriangleList,
    TriangleStrip,
}

/// The width of strip restart indices; the only width this library ever
/// selects is 32 bits.
#[derive(Clone, Copy, Debug, PartialEq, Eq, Structural)]
pub enum IndexFormat {
    Uint32,
}

impl Topology {
    /// A strip topology needs a strip index format; a list topology does not.
    pub open spec fn is_strip(self) -> bool {
        self == Topology::LineStrip || self == Topology::TriangleStrip
    }
}

/// The topology a command-line argument selects: the four recognised names
/// map to their topologies, every other string to the point-list default.
pub open spec fn spec_topology_for_name(s: Seq<char>) -> Topology {
    if s == "line-list"@ {
        Topology::LineList
    } else if s == "triangle-list"@ {
        Topology::TriangleList
    } else if s == "triangle-strip"@ {
        Topology::TriangleStrip
    } else if s == "line-strip"@ {
        Topology::LineStrip
    } else {
        Topology::PointList
    }
}

/// The topology selected by the recognised names, point-list for any other
/// name.
pub fn topology_for_name(name: &str) -> (t: Topology)
    ensures
        t == spec_topology_for_name(name@),
{
    if str_eq(name, "line-list") {
        Topology::LineList
    } else if str_eq(name, "triangle-list") {
        Topology::TriangleList
    } else if str_eq(name, "triangle-strip") {
        Topology::TriangleStrip
    } else if str_eq(name, "line-strip") {
        Topology::LineStrip
    } else {
        Topology::PointList
    }
}

/// The settings the one render pipeline is built from: the primitive
/// topology and, for strip topologies, the strip index format.
#[derive(Clone, Copy, Debug, PartialEq, Eq, Structural)]
pub struct Inputs {
    pub topology: Topology,
    pub strip_index_format: Option<IndexFormat>,
}

impl Inputs {
    /// The strip index format is the 32-bit one exactly on strip
    /// topologies, and absent on the others.
    pub open spec fn wf(self) -> bool {
        self.strip_index_format == if self.topology.is_strip() {
            Some(IndexFormat::Uint32)
        } else {
            None::<IndexFormat>
        }
    }

    /// Pipeline settings for a topology: strip topologies carry the 32-bit
    /// strip index format, list topologies none.
    pub fn for_topology(topology: Topology) -> (inp: Inputs)
        ensures
            inp.topology == topology,
            inp.wf(),
            topology.is_strip() ==> inp.strip_index_format == Some(IndexFormat::Uint32),
            !topology.is_strip() ==> inp.strip_index_format == None::<IndexFormat>,
    {
        let strip_index_format = match topology {
            Topology::LineStrip | Topology::TriangleStrip => Some(IndexFormat::Uint32),
            _ => None,
        };
        Inputs { topology, strip_index_format }
    }

    /// For every argument string, the pipeline settings selected for it
    /// carry the 32-bit strip index format exactly when the argument names
    /// a strip topology, and no format otherwise.
    pub proof fn lemma_strip_index_format(inp: Inputs, s: Seq<char>)
        requires
            inp.wf(),
            inp.topology == spec_topology_for_name(s),
        ensures
            inp.strip_index_format == if s == "triangle-strip"@ || s == "line-strip"@ {
                Some(IndexFormat::Uint32)
            } else {
                None::<IndexFormat>
            },
    {
        reveal_strlit("line-list");
        reveal_strlit("triangle-list");
        reveal_strlit("triangle-strip");
        reveal_strlit("line-strip");
        assert("line-list"@.len() == 9);
        assert("triangle-list"@.len() == 13);
        assert("triangle-strip"@.len() == 14);
        assert("line-strip"@.len() == 10);
    }

    /// Pipeline settings selected by the optional first command-line
    /// argument: a recognised name picks its topology, any other name and
    /// an absent argument pick point-list.
    pub fn select(arg: &Option<String>) -> (inp: Inputs)
        ensures
            match arg {
                Some(s) => inp.topology == spec_topology_for_name(s@),
                None => inp.topology == Topology::PointList,
            },
            inp.wf(),
    {
        let topology = match arg {
            Some(s) => topology_for_name(s.as_str()),
            None => Topology::PointList,
        };
        Inputs::for_topology(topology)
    }
}

} // verus!
