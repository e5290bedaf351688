//! The error type of the build method, generated unless an existing one is used.
use vstd::prelude::*;
use crate::text::push_str;
use crate::visibility::Visibility;

verus! {

broadcast use {crate::text::lemma_concat_assoc, crate::text::lemma_concat_empty};

/// The generated error type of the build method.
#[derive(Debug)]
pub struct BuilderErrorType {
    /// Enables code generation for the error type.
    pub enabled: bool,
    /// Name of the error type.
    pub ident: String,
    /// Visibility of the error type.
    pub visibility: Visibility,
    /// Path to the root of the derive_builder crate.
    pub crate_root: String,
    /// Whether the type has a `ValidationError(String)` variant.
    pub validation_error: bool,
    /// Whether `std::error::Error` is implemented.
    pub std: bool,
}

/// What the error type emits, by the source text of its parts.
pub struct BuilderErrorTypeView {
    /// Enables code generation for the error type.
    pub enabled: bool,
    /// Name of the error type.
    pub ident: Seq<char>,
    /// Visibility of the error type.
    pub visibility: Visibility,
    /// Path to the root of the derive_builder crate.
    pub crate_root: Seq<char>,
    /// Whether the type has a `ValidationError(String)` variant.
    pub validation_error: bool,
    /// Whether `std::error::Error` is implemented.
    pub std: bool,
}

impl View for BuilderErrorType {
    type V = BuilderErrorTypeView;

    open spec fn view(&self) -> BuilderErrorTypeView {
        BuilderErrorTypeView {
            enabled: self.enabled,
            ident: self.ident@,
            visibility: self.visibility,
            crate_root: self.crate_root@,
            validation_error: self.validation_error,
            std: self.std,
        }
    }
}

impl BuilderErrorTypeView {
    /// The enum's definition.
    pub open spec fn enum_code(&self) -> Seq<char> {
        "#[derive(Debug)] #[non_exhaustive] "@ + self.visibility.code() + "enum "@ + self.ident
            + " { UninitializedField(&'static str), "@ + if self.validation_error {
            "ValidationError("@ + self.crate_root + "::export::core::string::String), "@
        } else {
            Seq::empty()
        } + "} "@
    }

    /// The conversions into the type.
    pub open spec fn from_code(&self) -> Seq<char> {
        "impl "@ + self.crate_root + "::export::core::convert::From<"@ + self.crate_root
            + "::UninitializedFieldError> for "@ + self.ident + " { fn from(s: "@
            + self.crate_root
            + "::UninitializedFieldError) -> Self { Self::UninitializedField(s.field_name()) } } "@
            + if self.validation_error {
            "impl "@ + self.crate_root + "::export::core::convert::From<"@ + self.crate_root
                + "::export::core::string::String> for "@ + self.ident + " { fn from(s: "@
                + self.crate_root
                + "::export::core::string::String) -> Self { Self::ValidationError(s) } } "@
        } else {
            Seq::empty()
        }
    }

    /// The `Display` impl, and the `std::error::Error` impl if enabled.
    pub open spec fn display_code(&self) -> Seq<char> {
        "impl "@ + self.crate_root + "::export::core::fmt::Display for "@ + self.ident
            + " { fn fmt(&self, f: &mut "@ + self.crate_root + "::export::core::fmt::Formatter) -> "@
            + self.crate_root
            + "::export::core::fmt::Result { match self { Self::UninitializedField(ref field) => write!(f, \"`{}` must be initialized\", field), "@
            + if self.validation_error {
            "Self::ValidationError(ref error) => write!(f, \"{}\", error), "@
        } else {
            Seq::empty()
        } + "} } } "@ + if self.std {
            "impl std::error::Error for "@ + self.ident + " {} "@
        } else {
            Seq::empty()
        }
    }

    /// The source text of the error type; nothing if disabled.
    pub open spec fn code(&self) -> Seq<char> {
        if self.enabled {
            self.enum_code() + self.from_code() + self.display_code()
        } else {
            Seq::empty()
        }
    }
}

impl BuilderErrorType {
    /// The source text of the error type; nothing if disabled.
    pub open spec fn code(&self) -> Seq<char> {
        self@.code()
    }

    fn push_enum(&self, tokens: &mut String)
        ensures
            final(tokens)@ == old(tokens)@ + self@.enum_code(),
    {
        push_str(tokens, "#[derive(Debug)] #[non_exhaustive] ");
        self.visibility.to_tokens(tokens);
        push_str(tokens, "enum ");
        push_str(tokens, self.ident.as_str());
        push_str(tokens, " { UninitializedField(&'static str), ");
        if self.validation_error {
            push_str(tokens, "ValidationError(");
            push_str(tokens, self.crate_root.as_str());
            push_str(tokens, "::export::core::string::String), ");
        }
        push_str(tokens, "} ");
    }

    fn push_from(&self, tokens: &mut String)
        ensures
            final(tokens)@ == old(tokens)@ + self@.from_code(),
    {
        let cr = self.crate_root.as_str();
        push_str(tokens, "impl ");
        push_str(tokens, cr);
        push_str(tokens, "::export::core::convert::From<");
        push_str(tokens, cr);
        push_str(tokens, "::UninitializedFieldError> for ");
        push_str(tokens, self.ident.as_str());
        push_str(tokens, " { fn from(s: ");
        push_str(tokens, cr);
        push_str(tokens, "::UninitializedFieldError) -> Self { Self::UninitializedField(s.field_name()) } } ");
        if self.validation_error {
            push_str(tokens, "impl ");
            push_str(tokens, cr);
            push_str(tokens, "::export::core::convert::From<");
            push_str(tokens, cr);
            push_str(tokens, "::export::core::string::String> for ");
            push_str(tokens, self.ident.as_str());
            push_str(tokens, " { fn from(s: ");
            push_str(tokens, cr);
            push_str(tokens, "::export::core::string::String) -> Self { Self::ValidationError(s) } } ");
        }
    }

    fn push_display(&self, tokens: &mut String)
        ensures
            final(tokens)@ == old(tokens)@ + self@.display_code(),
    {
        let cr = self.crate_root.as_str();
        push_str(tokens, "impl ");
        push_str(tokens, cr);
        push_str(tokens, "::export::core::fmt::Display for ");
        push_str(tokens, self.ident.as_str());
        push_str(tokens, " { fn fmt(&self, f: &mut ");
        push_str(tokens, cr);
        push_str(tokens, "::export::core::fmt::Formatter) -> ");
        push_str(tokens, cr);
        push_str(
            tokens,
            "::export::core::fmt::Result { match self { Self::UninitializedField(ref field) => write!(f, \"`{}` must be initialized\", field), ",
        );
        if self.validation_error {
            push_str(tokens, "Self::ValidationError(ref error) => write!(f, \"{}\", error), ");
        }
        push_str(tokens, "} } } ");
        if self.std {
            push_str(tokens, "impl std::error::Error for ");
            push_str(tokens, self.ident.as_str());
            push_str(tokens, " {} ");
        }
    }

    /// Appends the error type to `tokens`; nothing if disabled.
    pub fn to_tokens(&self, tokens: &mut String)
        ensures
            final(tokens)@ == old(tokens)@ + self.code(),
    {
        if self.enabled {
            self.push_enum(tokens);
            self.push_from(tokens);
            self.push_display(tokens);
        }
    }
}

} // verus!
