//! Paths into `std` or `core` used by generated code.
use vstd::prelude::*;
use crate::text::to_owned_string;

verus! {

/// Bindings to be used by the generated code.
#[derive(Debug, Clone, Copy, Default)]
pub struct Bindings {
    /// Whether the generated code should comply with `#![no_std]`.
    pub no_std: bool,
}

impl Bindings {
    /// The path that [`Self::string_ty`] returns.
    pub open spec fn spec_string_ty(self) -> Seq<char> {
        if self.no_std {
            "::alloc::string::String"@
        } else {
            "::std::string::String"@
        }
    }

    /// String type.
    pub fn string_ty(&self) -> (r: String)
        ensures
            r@ == self.spec_string_ty(),
    {
        if self.no_std {
            to_owned_string("::alloc::string::String")
        } else {
            to_owned_string("::std::string::String")
        }
    }

    /// The path that [`Self::result_ty`] returns.
    pub open spec fn spec_result_ty(self) -> Seq<char> {
        if self.no_std {
            "::core::result::Result"@
        } else {
            "::std::result::Result"@
        }
    }

    /// Result type.
    pub fn result_ty(&self) -> (r: String)
        ensures
            r@ == self.spec_result_ty(),
    {
        if self.no_std {
            to_owned_string("::core::result::Result")
        } else {
            to_owned_string("::std::result::Result")
        }
    }

    /// The path that [`Self::option_ty`] returns.
    pub open spec fn spec_option_ty(self) -> Seq<char> {
        if self.no_std {
            "::core::option::Option"@
        } else {
            "::std::option::Option"@
        }
    }

    /// Option type.
    pub fn option_ty(&self) -> (r: String)
        ensures
            r@ == self.spec_option_ty(),
    {
        if self.no_std {
            to_owned_string("::core::option::Option")
        } else {
            to_owned_string("::std::option::Option")
        }
    }

    /// The path that [`Self::phantom_data_ty`] returns.
    pub open spec fn spec_phantom_data_ty(self) -> Seq<char> {
        if self.no_std {
            "::core::marker::PhantomData"@
        } else {
            "::std::marker::PhantomData"@
        }
    }

    /// PhantomData type.
    pub fn phantom_data_ty(&self) -> (r: String)
        ensures
            r@ == self.spec_phantom_data_ty(),
    {
        if self.no_std {
            to_owned_string("::core::marker::PhantomData")
        } else {
            to_owned_string("::std::marker::PhantomData")
        }
    }

    /// The path that [`Self::default_trait`] returns.
    pub open spec fn spec_default_trait(self) -> Seq<char> {
        if self.no_std {
            "::core::default::Default"@
        } else {
            "::std::default::Default"@
        }
    }

    /// Default trait.
    pub fn default_trait(&self) -> (r: String)
        ensures
            r@ == self.spec_default_trait(),
    {
        if self.no_std {
            to_owned_string("::core::default::Default")
        } else {
            to_owned_string("::std::default::Default")
        }
    }

    /// The path that [`Self::clone_trait`] returns.
    pub open spec fn spec_clone_trait(self) -> Seq<char> {
        if self.no_std {
            "::core::clone::Clone"@
        } else {
            "::std::clone::Clone"@
        }
    }

    /// Clone trait.
    pub fn clone_trait(&self) -> (r: String)
        ensures
            r@ == self.spec_clone_trait(),
    {
        if self.no_std {
            to_owned_string("::core::clone::Clone")
        } else {
            to_owned_string("::std::clone::Clone")
        }
    }

    /// The path that [`Self::into_trait`] returns.
    pub open spec fn spec_into_trait(self) -> Seq<char> {
        if self.no_std {
            "::core::convert::Into"@
        } else {
            "::std::convert::Into"@
        }
    }

    /// Into trait.
    pub fn into_trait(&self) -> (r: String)
        ensures
            r@ == self.spec_into_trait(),
    {
        if self.no_std {
            to_owned_string("::core::convert::Into")
        } else {
            to_owned_string("::std::convert::Into")
        }
    }

    /// The path that [`Self::try_into_trait`] returns.
    pub open spec fn spec_try_into_trait(self) -> Seq<char> {
        if self.no_std {
            "::core::convert::TryInto"@
        } else {
            "::std::convert::TryInto"@
        }
    }

    /// TryInto trait.
    pub fn try_into_trait(&self) -> (r: String)
        ensures
            r@ == self.spec_try_into_trait(),
    {
        if self.no_std {
            to_owned_string("::core::convert::TryInto")
        } else {
            to_owned_string("::std::convert::TryInto")
        }
    }

    /// The path that [`Self::try_from_trait`] returns.
    pub open spec fn spec_try_from_trait(self) -> Seq<char> {
        if self.no_std {
            "::core::convert::TryFrom"@
        } else {
            "::std::convert::TryFrom"@
        }
    }

    /// TryFrom trait.
    pub fn try_from_trait(&self) -> (r: String)
        ensures
            r@ == self.spec_try_from_trait(),
    {
        if self.no_std {
            to_owned_string("::core::convert::TryFrom")
        } else {
            to_owned_string("::std::convert::TryFrom")
        }
    }
}

} // verus!
