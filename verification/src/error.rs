use vstd::prelude::*;
use vstd::string::StringExecFns;

verus! {

/// The kind of attribute in which a name could not be resolved.
#[derive(Clone, Copy, Debug, PartialEq, Eq, Structural)]
pub enum Context {
    Interface,
    Spectrometer,
    Imager,
    Ccd,
}

impl Context {
    /// The kind in words.
    pub open spec fn text_spec(self) -> Seq<char> {
        match self {
            Context::Interface => "interface"@,
            Context::Spectrometer => "spectrometer"@,
            Context::Imager => "imager"@,
            Context::Ccd => "ccd"@,
        }
    }

    /// The kind in words.
    pub fn text(self) -> (text: &'static str)
        ensures
            text@ == self.text_spec(),
    {
        match self {
            Context::Interface => "interface",
            Context::Spectrometer => "spectrometer",
            Context::Imager => "imager",
            Context::Ccd => "ccd",
        }
    }
}

/// What can go wrong while a scene is set up or a photon is walked.
#[derive(Clone, Debug, PartialEq, Eq)]
pub enum Error {
    /// An attribute refers to a name that the set it is linked against lacks.
    MissingKey { context: Context, name: String },
    /// Two entries that are to stand in one set bear the same name.
    DuplicateName { name: String },
    /// The boundary gave no distance for a photon that it contains.
    NotContained,
    /// The walk was handed an observation that its stage does not await.
    OutOfTurn,
}

impl Error {
    /// The error in words. It holds the name that the error is about.
    pub open spec fn message_spec(self) -> Seq<char> {
        match self {
            Error::MissingKey { context, name } => "Failed to link attribute-"@
                + context.text_spec() + " key: "@ + name@,
            Error::DuplicateName { name } => "Set names must be unique, but this name is not: "@
                + name@,
            Error::NotContained => "Photon not contained in boundary."@,
            Error::OutOfTurn => "Observation out of turn."@,
        }
    }

    /// The error in words.
    pub fn message(&self) -> (text: String)
        ensures
            text@ == self.message_spec(),
    {
        match self {
            Error::MissingKey { context, name } => {
                let mut text = "Failed to link attribute-".to_owned();
                text.append(context.text());
                text.append(" key: ");
                text.append(name.as_str());
                text
            },
            Error::DuplicateName { name } => {
                let mut text = "Set names must be unique, but this name is not: ".to_owned();
                text.append(name.as_str());
                text
            },
            Error::NotContained => "Photon not contained in boundary.".to_owned(),
            Error::OutOfTurn => "Observation out of turn.".to_owned(),
        }
    }
}

} // verus!
