use vstd::prelude::*;

verus! {

/// Why a declaration was turned down.
#[derive(Clone, Copy, Debug, PartialEq, Eq, Structural)]
pub enum ProxyUiStateError {
    /// The proxy is registered already, with another target.
    MultipleProxyUiPerEntity,
    /// The proxy is registered already, with this very target.
    DuplicateProxyUi,
}

impl ProxyUiStateError {
    /// The text that describes the error.
    pub open spec fn message(self) -> Seq<char> {
        match self {
            ProxyUiStateError::MultipleProxyUiPerEntity => "Multiple proxy UI per entity"@,
            ProxyUiStateError::DuplicateProxyUi => "Duplicate proxy UI"@,
        }
    }

    /// The text that describes the error, as a constant.
    pub fn as_str(&self) -> (text: &'static str)
        ensures
            text@ == self.message(),
    {
        match self {
            ProxyUiStateError::MultipleProxyUiPerEntity => "Multiple proxy UI per entity",
            ProxyUiStateError::DuplicateProxyUi => "Duplicate proxy UI",
        }
    }

    /// The text that describes the error, as an owned string.
    pub fn to_text(&self) -> (text: String)
        ensures
            text@ == self.message(),
    {
        self.as_str().to_string()
    }
}

impl From<&ProxyUiStateError> for &'static str {
    fn from(error: &ProxyUiStateError) -> (text: &'static str) {
        match error {
            ProxyUiStateError::MultipleProxyUiPerEntity => "Multiple proxy UI per entity",
            ProxyUiStateError::DuplicateProxyUi => "Duplicate proxy UI",
        }
    }
}

impl vstd::std_specs::convert::FromSpecImpl<&ProxyUiStateError> for &'static str {
    open spec fn obeys_from_spec() -> bool {
        true
    }

    open spec fn from_spec(error: &ProxyUiStateError) -> &'static str {
        match error {
            ProxyUiStateError::MultipleProxyUiPerEntity => "Multiple proxy UI per entity",
            ProxyUiStateError::DuplicateProxyUi => "Duplicate proxy UI",
        }
    }
}

impl From<ProxyUiStateError> for &'static str {
    fn from(error: ProxyUiStateError) -> (text: &'static str) {
        match error {
            ProxyUiStateError::MultipleProxyUiPerEntity => "Multiple proxy UI per entity",
            ProxyUiStateError::DuplicateProxyUi => "Duplicate proxy UI",
        }
    }
}

impl vstd::std_specs::convert::FromSpecImpl<ProxyUiStateError> for &'static str {
    open spec fn obeys_from_spec() -> bool {
        true
    }

    open spec fn from_spec(error: ProxyUiStateError) -> &'static str {
        match error {
            ProxyUiStateError::MultipleProxyUiPerEntity => "Multiple proxy UI per entity",
            ProxyUiStateError::DuplicateProxyUi => "Duplicate proxy UI",
        }
    }
}

} // verus!
