use vstd::prelude::*;
use vstd::string::*;

verus! {

/// `std::io::Error`, carried through unopened.
#[verifier::external_type_specification]
#[verifier::external_body]
pub struct ExIoError(std::io::Error);

/// `ron::error::SpannedError`, carried through unopened.
#[verifier::external_type_specification]
#[verifier::external_body]
pub struct ExSpannedError(ron::error::SpannedError);

/// What reading and decoding a configuration file hands back: the outer
/// `Result` is the read, the inner one the decoding of the bytes that were
/// read. The decoder is never run on a file that could not be read.
pub type FileOutcome<A> = Result<Result<A, ron::error::SpannedError>, std::io::Error>;

/// Why a configuration file could not be loaded.
#[non_exhaustive]
#[derive(Debug)]
pub enum ConfigFileLoaderError {
    /// The file could not be read.
    Io(std::io::Error),
    /// The file was read, but its contents are not a value of the
    /// configuration type.
    RonError(ron::error::SpannedError),
}

impl From<std::io::Error> for ConfigFileLoaderError {
    fn from(error: std::io::Error) -> (r: Self) {
        ConfigFileLoaderError::Io(error)
    }
}

impl vstd::std_specs::convert::FromSpecImpl<std::io::Error> for ConfigFileLoaderError {
    open spec fn obeys_from_spec() -> bool {
        true
    }

    open spec fn from_spec(error: std::io::Error) -> Self {
        ConfigFileLoaderError::Io(error)
    }
}

impl From<ron::error::SpannedError> for ConfigFileLoaderError {
    fn from(error: ron::error::SpannedError) -> (r: Self) {
        ConfigFileLoaderError::RonError(error)
    }
}

impl vstd::std_specs::convert::FromSpecImpl<ron::error::SpannedError> for ConfigFileLoaderError {
    open spec fn obeys_from_spec() -> bool {
        true
    }

    open spec fn from_spec(error: ron::error::SpannedError) -> Self {
        ConfigFileLoaderError::RonError(error)
    }
}

/// The value or the error that a file outcome stands for.
pub open spec fn loaded<A>(outcome: FileOutcome<A>) -> Result<A, ConfigFileLoaderError> {
    match outcome {
        Err(error) => Err(ConfigFileLoaderError::Io(error)),
        Ok(Err(error)) => Err(ConfigFileLoaderError::RonError(error)),
        Ok(Ok(value)) => Ok(value),
    }
}

impl ConfigFileLoaderError {
    /// The words every message for this kind of error opens with.
    pub open spec fn opening(&self) -> Seq<char> {
        match self {
            ConfigFileLoaderError::Io(_) => "Could not read the file: "@,
            ConfigFileLoaderError::RonError(_) => "Could not parse RON: "@,
        }
    }

    /// Whether `cause` is a text the underlying error prints for itself.
    pub open spec fn prints_as(&self, cause: String) -> bool {
        match self {
            ConfigFileLoaderError::Io(error) => to_string_from_display_ensures::<std::io::Error>(
                error,
                cause,
            ),
            ConfigFileLoaderError::RonError(error) => to_string_from_display_ensures::<
                ron::error::SpannedError,
            >(error, cause),
        }
    }

    /// The message for this error when the underlying error reads `cause`.
    pub fn describe(&self, cause: &str) -> (r: String)
        ensures
            r@ == self.opening() + cause@,
    {
        match self {
            ConfigFileLoaderError::Io(_) => String::from_str("Could not read the file: ").concat(
                cause,
            ),
            ConfigFileLoaderError::RonError(_) => String::from_str("Could not parse RON: ").concat(
                cause,
            ),
        }
    }

    /// The message for this error: the opening words for its kind, followed
    /// by what the underlying error prints for itself. A decoding error
    /// prints the line and column at which decoding stopped, where it has
    /// them.
    pub fn message(&self) -> (r: String)
        ensures
            exists|cause: String| #[trigger] self.prints_as(cause) && r@ == self.opening() + cause@,
    {
        let cause = match self {
            ConfigFileLoaderError::Io(error) => error.to_string(),
            ConfigFileLoaderError::RonError(error) => error.to_string(),
        };
        assert(self.prints_as(cause));
        self.describe(cause.as_str())
    }
}

} // verus!
