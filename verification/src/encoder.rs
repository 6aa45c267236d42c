//! The two encodings of a catalog, and what a request and a response say of them.
//! Encoding itself is the caller's part; the library names the encodings and labels
//! their output.

use vstd::prelude::*;

verus! {

/// Which encoding a request asks for.
#[derive(Clone, Copy, Debug, PartialEq, Eq, Structural)]
pub enum Encoder {
    /// Self-describing text: JSON, with the field names kept.
    Json,
    /// Compact, schema-aware binary: an rkyv archive.
    Rkyv,
}

impl Encoder {
    /// Every encoder, in declaration order.
    pub open spec fn variants() -> Seq<Encoder> {
        seq![Encoder::Json, Encoder::Rkyv]
    }

    /// Lists every encoder, in declaration order.
    pub fn all() -> (list: Vec<Encoder>)
        ensures
            list@ == Self::variants(),
    {
        let list = vec![Encoder::Json, Encoder::Rkyv];
        assert(list@ =~= Self::variants());
        list
    }

    /// The encoder's name in a measurement.
    pub open spec fn name_text(self) -> Seq<char> {
        match self {
            Encoder::Json => "JSON"@,
            Encoder::Rkyv => "rkyv"@,
        }
    }

    /// Gives the encoder's name in a measurement.
    pub fn name(&self) -> (name: &'static str)
        ensures
            name@ == self.name_text(),
    {
        match self {
            Encoder::Json => "JSON",
            Encoder::Rkyv => "rkyv",
        }
    }

    /// The media type that labels the encoder's output.
    pub open spec fn content_type_text(self) -> Seq<char> {
        match self {
            Encoder::Json => "application/json"@,
            Encoder::Rkyv => "application/octet-stream"@,
        }
    }

    /// Gives the media type that labels the encoder's output: structured text for
    /// JSON, opaque bytes for rkyv.
    pub fn content_type(&self) -> (label: &'static str)
        ensures
            label@ == self.content_type_text(),
    {
        match self {
            Encoder::Json => "application/json",
            Encoder::Rkyv => "application/octet-stream",
        }
    }

    /// The request path that selects the encoder.
    pub open spec fn route_text(self) -> Seq<char> {
        match self {
            Encoder::Json => "/json"@,
            Encoder::Rkyv => "/rkyv"@,
        }
    }

    /// Gives the request path that selects the encoder.
    pub fn route(&self) -> (path: &'static str)
        ensures
            path@ == self.route_text(),
    {
        match self {
            Encoder::Json => "/json",
            Encoder::Rkyv => "/rkyv",
        }
    }

    /// Finds the encoder that the request path `path` selects, or `None` for a path
    /// that selects none.
    pub fn from_route(path: &str) -> (selected: Option<Encoder>)
        ensures
            selected == Some(Encoder::Json) <==> path@ == Encoder::Json.route_text(),
            selected == Some(Encoder::Rkyv) <==> path@ == Encoder::Rkyv.route_text(),
            selected is None <==> path@ != Encoder::Json.route_text() && path@
                != Encoder::Rkyv.route_text(),
    {
        proof {
            Self::lemma_routes_differ();
        }
        let asked = path.to_owned();
        if asked == String::from_str("/json") {
            Some(Encoder::Json)
        } else if asked == String::from_str("/rkyv") {
            Some(Encoder::Rkyv)
        } else {
            None
        }
    }

    /// No path selects two encoders.
    pub proof fn lemma_routes_differ()
        ensures
            Encoder::Json.route_text() != Encoder::Rkyv.route_text(),
    {
        reveal_strlit("/json");
        reveal_strlit("/rkyv");
        assert("/json"@[1] == 'j');
        assert("/rkyv"@[1] == 'r');
    }
}

} // verus!
