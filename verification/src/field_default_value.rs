//! Default values of fields, computed inside the build method.
use vstd::prelude::*;
use crate::default_expression::DefaultExpression;
use crate::initializer::{default_ident_code, DEFAULT_FIELD_NAME_PREFIX};
use crate::text::{push_str, string_literal, string_literal_text};

verus! {

broadcast use {crate::text::lemma_concat_assoc, crate::text::lemma_concat_empty};

/// Name of the local variable that holds the struct-level default value.
pub const DEFAULT_STRUCT_NAME: &'static str = "__default";

/// How a missing field value is filled in.
#[derive(Debug, Clone)]
pub enum DefaultValue {
    /// The given expression, with the support crate at the given path.
    DefaultTo { expr: DefaultExpression, crate_root: String },
    /// The field of the struct-level default value.
    UseDefaultStructField(String),
    /// An error that names the field, through the support crate at the given path.
    ReturnError { crate_root: String, field_name: String },
}

impl DefaultValue {
    /// The source text of the calculation.
    pub open spec fn code(&self) -> Seq<char> {
        match self {
            DefaultValue::DefaultTo { expr, crate_root } => "Some("@ + expr.code_with_crate_root(
                crate_root@,
            ) + ")"@,
            DefaultValue::UseDefaultStructField(f) => "Some(__default."@ + f@ + ")"@,
            DefaultValue::ReturnError { crate_root, field_name } => "return "@ + crate_root@
                + "::export::core::result::Result::Err("@ + crate_root@
                + "::export::core::convert::Into::into("@ + crate_root@
                + "::UninitializedFieldError::from("@ + string_literal_text(field_name@) + ")))"@,
        }
    }

    /// Appends the calculation to `tokens`.
    pub fn to_tokens(&self, tokens: &mut String)
        ensures
            final(tokens)@ == old(tokens)@ + self.code(),
    {
        match self {
            DefaultValue::DefaultTo { expr, crate_root } => {
                push_str(tokens, "Some(");
                expr.with_crate_root(crate_root.as_str(), tokens);
                push_str(tokens, ")");
            },
            DefaultValue::UseDefaultStructField(f) => {
                push_str(tokens, "Some(__default.");
                push_str(tokens, f.as_str());
                push_str(tokens, ")");
            },
            DefaultValue::ReturnError { crate_root, field_name } => {
                push_str(tokens, "return ");
                push_str(tokens, crate_root.as_str());
                push_str(tokens, "::export::core::result::Result::Err(");
                push_str(tokens, crate_root.as_str());
                push_str(tokens, "::export::core::convert::Into::into(");
                push_str(tokens, crate_root.as_str());
                push_str(tokens, "::UninitializedFieldError::from(");
                let lit = string_literal(field_name.as_str());
                push_str(tokens, lit.as_str());
                push_str(tokens, ")))");
            },
        }
    }
}

/// Calculates the default value or error for fields.
///
/// Lives in the body of the build method. In case there is no default value
/// (`default_value == None && use_default_struct == false`) a missing field
/// makes `build` return an error.
#[derive(Debug, Clone)]
pub struct FieldDefaultValue {
    /// Path to the root of the derive_builder crate.
    pub crate_root: String,
    /// Name of the target field.
    pub field_ident: String,
    /// Type of the target field.
    pub field_type: String,
    /// Whether the builder implements a setter for this field.
    pub field_enabled: bool,
    /// Whether the builder uses the default value.
    pub enabled: bool,
    /// Default value for the target field; takes precedence over the struct default.
    pub default_value: Option<DefaultExpression>,
    /// Whether the build method defines a default struct.
    pub use_default_struct: bool,
}

/// What a field's default value emits, by the source text of its parts.
pub struct FieldDefaultValueView {
    /// Path to the root of the derive_builder crate.
    pub crate_root: Seq<char>,
    /// Name of the target field.
    pub field_ident: Seq<char>,
    /// Type of the target field.
    pub field_type: Seq<char>,
    /// Whether the builder implements a setter for this field.
    pub field_enabled: bool,
    /// Whether the builder uses the default value.
    pub enabled: bool,
    /// Default value for the target field.
    pub default_value: Option<DefaultExpression>,
    /// Whether the build method defines a default struct.
    pub use_default_struct: bool,
}

impl View for FieldDefaultValue {
    type V = FieldDefaultValueView;

    open spec fn view(&self) -> FieldDefaultValueView {
        FieldDefaultValueView {
            crate_root: self.crate_root@,
            field_ident: self.field_ident@,
            field_type: self.field_type@,
            field_enabled: self.field_enabled,
            enabled: self.enabled,
            default_value: self.default_value,
            use_default_struct: self.use_default_struct,
        }
    }
}

impl FieldDefaultValueView {
    /// How a missing value of an enabled field is filled in.
    pub open spec fn calc_code(&self) -> Seq<char> {
        match self.default_value {
            Some(expr) => "Some("@ + expr.code_with_crate_root(self.crate_root) + ")"@,
            None => if self.use_default_struct {
                "Some(__default."@ + self.field_ident + ")"@
            } else {
                "return "@ + self.crate_root + "::export::core::result::Result::Err("@
                    + self.crate_root + "::export::core::convert::Into::into("@ + self.crate_root
                    + "::UninitializedFieldError::from("@ + string_literal_text(self.field_ident)
                    + ")))"@
            },
        }
    }

    /// The value of a field whose setter is disabled.
    pub open spec fn disabled_code(&self) -> Seq<char> {
        match self.default_value {
            Some(expr) => expr.code_with_crate_root(self.crate_root),
            None => if self.use_default_struct {
                "__default."@ + self.field_ident
            } else {
                self.crate_root + "::export::core::default::Default::default()"@
            },
        }
    }

    /// The source text: a `let` of the field's default value, if enabled.
    pub open spec fn code(&self) -> Seq<char> {
        if !self.enabled {
            Seq::empty()
        } else if self.field_enabled {
            "let "@ + default_ident_code(self.field_ident) + ": Option<"@ + self.field_type
                + "> = match self."@ + self.field_ident + ".as_ref() { Some(_) => None, None => "@
                + self.calc_code() + ", }; "@
        } else {
            "let "@ + default_ident_code(self.field_ident) + ": "@ + self.field_type + " = "@
                + self.disabled_code() + "; "@
        }
    }
}

impl FieldDefaultValue {
    /// How a missing value of an enabled field is filled in.
    pub open spec fn spec_default_value_calculation(&self) -> DefaultValue {
        match self.default_value {
            Some(expr) => DefaultValue::DefaultTo { expr, crate_root: self.crate_root },
            None => if self.use_default_struct {
                DefaultValue::UseDefaultStructField(self.field_ident)
            } else {
                DefaultValue::ReturnError {
                    crate_root: self.crate_root,
                    field_name: self.field_ident,
                }
            },
        }
    }

    /// The source text: a `let` of the field's default value, if enabled.
    pub open spec fn code(&self) -> Seq<char> {
        self@.code()
    }

    /// How a missing value of an enabled field is filled in.
    pub fn default_value_calculation(&self) -> (r: DefaultValue)
        ensures
            r == self.spec_default_value_calculation(),
            r.code() == self@.calc_code(),
    {
        match &self.default_value {
            Some(expr) => DefaultValue::DefaultTo {
                expr: expr.duplicate(),
                crate_root: self.crate_root.clone(),
            },
            None => if self.use_default_struct {
                DefaultValue::UseDefaultStructField(self.field_ident.clone())
            } else {
                DefaultValue::ReturnError {
                    crate_root: self.crate_root.clone(),
                    field_name: self.field_ident.clone(),
                }
            },
        }
    }

    /// Appends the value of a field whose setter is disabled.
    pub fn default_value_for_disabled(&self, tokens: &mut String)
        ensures
            final(tokens)@ == old(tokens)@ + self@.disabled_code(),
    {
        match &self.default_value {
            Some(expr) => expr.with_crate_root(self.crate_root.as_str(), tokens),
            None => if self.use_default_struct {
                push_str(tokens, "__default.");
                push_str(tokens, self.field_ident.as_str());
            } else {
                push_str(tokens, self.crate_root.as_str());
                push_str(tokens, "::export::core::default::Default::default()");
            },
        }
    }

    /// Appends the `let` of the field's default value; nothing if disabled.
    pub fn to_tokens(&self, tokens: &mut String)
        ensures
            final(tokens)@ == old(tokens)@ + self.code(),
    {
        if !self.enabled {
            return;
        }
        push_str(tokens, "let ");
        push_str(tokens, DEFAULT_FIELD_NAME_PREFIX);
        push_str(tokens, self.field_ident.as_str());
        if self.field_enabled {
            push_str(tokens, ": Option<");
            push_str(tokens, self.field_type.as_str());
            push_str(tokens, "> = match self.");
            push_str(tokens, self.field_ident.as_str());
            push_str(tokens, ".as_ref() { Some(_) => None, None => ");
            let calc = self.default_value_calculation();
            calc.to_tokens(tokens);
            push_str(tokens, ", }; ");
        } else {
            push_str(tokens, ": ");
            push_str(tokens, self.field_type.as_str());
            push_str(tokens, " = ");
            self.default_value_for_disabled(tokens);
            push_str(tokens, "; ");
        }
    }
}

} // verus!
