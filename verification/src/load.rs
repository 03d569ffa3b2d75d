//! Loading a document: read, decode, fill in the defaults.

use crate::config::Config;
use crate::defaults::{Field, RawConfig};
use vstd::prelude::*;

verus! {

/// Why a document could not be loaded.
#[derive(Debug, PartialEq)]
pub enum LoadError<I, E> {
    /// The path could not be read; holds the reader's own error.
    Io(I),
    /// What was read is no valid document; holds the decoder's diagnostic.
    Decode(E),
}

impl<T> Config<T> {
    /// Whether `loaded` is the result of a load in which reading and
    /// decoding came to `outcome`.
    ///
    /// A failed read is an `Io` error and a failed decode a `Decode` error,
    /// each with its cause unchanged. A decoded document always loads: its
    /// absent fields take their defaults, and the fields that did so stand
    /// beside it.
    pub open spec fn outcome_gives<I, E>(
        outcome: Result<Result<RawConfig<T>, E>, I>,
        loaded: Result<(Config<T>, Vec<Field>), LoadError<I, E>>,
    ) -> bool {
        match outcome {
            Ok(Ok(raw)) => loaded matches Ok(document) && document.0@ == raw@.resolve()
                && document.1@ == raw@.defaulted(),
            Ok(Err(cause)) => loaded == Err::<(Config<T>, Vec<Field>), LoadError<I, E>>(
                LoadError::Decode(cause),
            ),
            Err(cause) => loaded == Err::<(Config<T>, Vec<Field>), LoadError<I, E>>(
                LoadError::Io(cause),
            ),
        }
    }

    /// Whether `loaded` is a result that loading `path` with `read` and
    /// `decode` may give: `read` returned an error, which is passed on, or it
    /// returned a text, and `loaded` is what follows from one of the results
    /// that `decode` may give for that text.
    pub open spec fn load_gives<P, I, E, FR, FP>(
        path: P,
        read: FR,
        decode: FP,
        loaded: Result<(Config<T>, Vec<Field>), LoadError<I, E>>,
    ) -> bool where FR: FnOnce(P) -> Result<String, I>, FP: FnOnce(String) -> Result<RawConfig<T>, E> {
        exists|contents: Result<String, I>| #[trigger]
            read.ensures((path,), contents) && match contents {
                Ok(text) => exists|decoded: Result<RawConfig<T>, E>| #[trigger]
                    decode.ensures((text,), decoded) && Self::outcome_gives(
                        Ok::<Result<RawConfig<T>, E>, I>(decoded),
                        loaded,
                    ),
                Err(cause) => Self::outcome_gives(
                    Err::<Result<RawConfig<T>, E>, I>(cause),
                    loaded,
                ),
            }
    }

    /// Gives the result of a load from what reading and decoding came to.
    pub fn from_outcome<I, E>(outcome: Result<Result<RawConfig<T>, E>, I>) -> (loaded: Result<
        (Config<T>, Vec<Field>),
        LoadError<I, E>,
    >)
        ensures
            Self::outcome_gives(outcome, loaded),
    {
        match outcome {
            Ok(Ok(raw)) => Ok(raw.resolve()),
            Ok(Err(cause)) => Err(LoadError::Decode(cause)),
            Err(cause) => Err(LoadError::Io(cause)),
        }
    }

    /// Loads the document at `path`: reads it with `read`, decodes what was
    /// read with `decode`, and fills in the defaults.
    ///
    /// If `read` fails, the load fails at once with its error, and nothing
    /// is decoded. If `decode` fails, the load fails with its diagnostic.
    /// Otherwise the load succeeds with the decoded document, resolved.
    pub fn load<P, I, E, FR, FP>(path: P, read: FR, decode: FP) -> (loaded: Result<
        (Config<T>, Vec<Field>),
        LoadError<I, E>,
    >) where FR: FnOnce(P) -> Result<String, I>, FP: FnOnce(String) -> Result<RawConfig<T>, E>
        requires
            read.requires((path,)),
            forall|text: String| decode.requires((text,)),
        ensures
            Self::load_gives(path, read, decode, loaded),
    {
        let contents = read(path);
        let ghost read_result = contents;
        match contents {
            Ok(text) => {
                let ghost source = text;
                let decoded = decode(text);
                let ghost decode_result = decoded;
                let loaded = Self::from_outcome(Ok(decoded));
                assert(decode.ensures((source,), decode_result));
                assert(read.ensures((path,), read_result));
                loaded
            },
            Err(cause) => {
                let loaded = Self::from_outcome(Err(cause));
                assert(read.ensures((path,), read_result));
                loaded
            },
        }
    }
}

} // verus!
