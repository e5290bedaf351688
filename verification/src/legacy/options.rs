//! Options of the first-generation derive, read from `#[builder(...)]`
//! attributes of the struct and of its fields.
use vstd::prelude::*;
use crate::legacy::deprecation_notes::DeprecationNotes;
use crate::legacy::syntax::{
    is_cooked_str, lit_str_value, meta_name, parse_lit_as_bool, parse_lit_as_cooked_string,
    spec_lit_bool, spec_meta_name, AttrStyle, Attribute, Lit, MacroInput, MetaItem,
    NestedMetaItem,
};
use crate::text::{push_str, str_eq, string_literal, string_literal_text, to_owned_string};
use crate::visibility::Visibility;

verus! {

broadcast use {crate::text::lemma_concat_assoc, crate::text::lemma_concat_empty};

/// The setter pattern: how setters (and the build method) take the builder.
#[derive(Debug, Clone, Copy, PartialEq, Eq, Structural)]
pub enum SetterPattern {
    /// Setters take and return `self`.
    Owned,
    /// Setters take and return `&mut self`.
    Mutable,
    /// Setters take `&self` and return a modified clone.
    Immutable,
}

impl Default for SetterPattern {
    fn default() -> (r: SetterPattern)
        ensures
            r == SetterPattern::Mutable,
    {
        SetterPattern::Mutable
    }
}

/// The options of the struct.
#[derive(Debug)]
pub struct StructOptions {
    /// The builder's name; defaults to the struct's name followed by `Builder`.
    pub builder_name: String,
    /// The builder's visibility; defaults to the struct's.
    pub builder_vis: Visibility,
    /// The options that fields fall back on.
    pub field_defaults: FieldOptions,
}

/// The options of a field.
#[derive(Debug)]
pub struct FieldOptions {
    /// Whether the field has a setter (and a builder field).
    pub setter_enabled: bool,
    /// e.g. `#[builder(pattern="owned")]` (defaults to mutable).
    pub setter_pattern: SetterPattern,
    /// e.g. `#[builder(setter(prefix="with"))]` (defaults to empty).
    pub setter_prefix: String,
    /// e.g. `#[builder(private)]` (defaults to public).
    pub setter_vis: Visibility,
    /// The name of the field, as written in the struct.
    pub field_name: String,
    /// The deprecation notices to send to the user.
    pub deprecation_notes: DeprecationNotes,
}

/// The options of a field, with text by its characters.
pub struct FieldOptionsView {
    /// Whether the field has a setter (and a builder field).
    pub setter_enabled: bool,
    /// The setter pattern.
    pub setter_pattern: SetterPattern,
    /// The setter's prefix.
    pub setter_prefix: Seq<char>,
    /// The setter's visibility.
    pub setter_vis: Visibility,
    /// The name of the field, as written in the struct.
    pub field_name: Seq<char>,
    /// The deprecation notices to send to the user.
    pub deprecation_notes: Seq<Seq<char>>,
}

impl View for FieldOptions {
    type V = FieldOptionsView;

    open spec fn view(&self) -> FieldOptionsView {
        FieldOptionsView {
            setter_enabled: self.setter_enabled,
            setter_pattern: self.setter_pattern,
            setter_prefix: self.setter_prefix@,
            setter_vis: self.setter_vis,
            field_name: self.field_name@,
            deprecation_notes: self.deprecation_notes@,
        }
    }
}

/// The options of the struct, with text by its characters.
pub struct StructOptionsView {
    /// The builder's name.
    pub builder_name: Seq<char>,
    /// The builder's visibility.
    pub builder_vis: Visibility,
    /// The options that fields fall back on.
    pub field_defaults: FieldOptionsView,
}

impl View for StructOptions {
    type V = StructOptionsView;

    open spec fn view(&self) -> StructOptionsView {
        StructOptionsView {
            builder_name: self.builder_name@,
            builder_vis: self.builder_vis,
            field_defaults: self.field_defaults@,
        }
    }
}

impl StructOptions {
    /// The options that fields fall back on.
    pub fn field_defaults(&self) -> (r: &FieldOptions)
        ensures
            r == &self.field_defaults,
    {
        &self.field_defaults
    }

    /// The builder's visibility.
    pub fn builder_visibility(&self) -> (r: &Visibility)
        ensures
            r == &self.builder_vis,
    {
        &self.builder_vis
    }

    /// The builder's name.
    pub fn builder_name(&self) -> (r: &str)
        ensures
            r@ == self.builder_name@,
    {
        self.builder_name.as_str()
    }
}

impl FieldOptions {
    /// Whether the field has a setter.
    pub fn setter_enabled(&self) -> (r: bool)
        ensures
            r == self.setter_enabled,
    {
        self.setter_enabled
    }

    /// The setter pattern.
    pub fn setter_pattern(&self) -> (r: &SetterPattern)
        ensures
            *r == self.setter_pattern,
    {
        &self.setter_pattern
    }

    /// The setter's visibility.
    pub fn setter_visibility(&self) -> (r: &Visibility)
        ensures
            *r == self.setter_vis,
    {
        &self.setter_vis
    }

    /// The setter's prefix.
    pub fn setter_prefix(&self) -> (r: &str)
        ensures
            r@ == self.setter_prefix@,
    {
        self.setter_prefix.as_str()
    }

    /// The name of the field, as written in the struct.
    pub fn field_name(&self) -> (r: &str)
        ensures
            r@ == self.field_name@,
    {
        self.field_name.as_str()
    }

    /// The deprecation notices to send to the user.
    pub fn deprecation_notes(&self) -> (r: &DeprecationNotes)
        ensures
            r@ == self.deprecation_notes@,
    {
        &self.deprecation_notes
    }
}

/// Where options are read: the struct, or one of its fields.
pub trait OptionsBuilderMode: Sized {
    /// Whether `name = "..."` is accepted here.
    spec fn accepts_builder_name() -> bool;

    /// The mode after `name = "..."` gave `name`.
    spec fn spec_with_builder_name(self, name: String) -> Self;

    /// Reads `name = "..."`.
    fn parse_builder_name(&mut self, name: &Lit)
        requires
            Self::accepts_builder_name(),
            is_cooked_str(*name),
        ensures
            *final(self) == old(self).spec_with_builder_name(lit_str_value(*name)),
    ;
}

/// Reading the struct's attributes.
#[derive(Debug)]
pub struct StructMode {
    /// `name = "..."`.
    pub builder_name: Option<String>,
    /// The builder's visibility, if set.
    pub builder_vis: Option<Visibility>,
    /// The struct's name.
    pub struct_name: String,
    /// The struct's visibility, once known.
    pub struct_vis: Option<Visibility>,
}

impl Default for StructMode {
    fn default() -> (r: Self)
        ensures
            r.builder_name is None,
            r.builder_vis is None,
            r.struct_name@ == Seq::<char>::empty(),
            r.struct_vis is None,
    {
        StructMode {
            builder_name: None,
            builder_vis: None,
            struct_name: String::new(),
            struct_vis: None,
        }
    }
}

impl OptionsBuilderMode for StructMode {
    open spec fn accepts_builder_name() -> bool {
        true
    }

    open spec fn spec_with_builder_name(self, name: String) -> Self {
        StructMode { builder_name: Some(name), ..self }
    }

    fn parse_builder_name(&mut self, name: &Lit) {
        if let Ok(value) = parse_lit_as_cooked_string(name) {
            self.builder_name = Some(value.clone());
        }
    }
}

/// Reading a field's attributes.
#[derive(Debug, Default)]
pub struct FieldMode;

impl OptionsBuilderMode for FieldMode {
    /// The builder's name can only be set on the struct.
    open spec fn accepts_builder_name() -> bool {
        false
    }

    open spec fn spec_with_builder_name(self, name: String) -> Self {
        self
    }

    fn parse_builder_name(&mut self, _name: &Lit) {
    }
}

/// The options read so far, before falling back on defaults.
#[derive(Debug)]
pub struct OptionsBuilder<Mode: OptionsBuilderMode> {
    /// Whether setters are emitted.
    pub setter_enabled: Option<bool>,
    /// The setter pattern.
    pub setter_pattern: Option<SetterPattern>,
    /// The setters' prefix.
    pub setter_prefix: Option<String>,
    /// The setters' visibility.
    pub setter_vis: Option<Visibility>,
    /// Deprecation notes collected while reading.
    pub deprecation_notes: DeprecationNotes,
    /// Where the options are read.
    pub mode: Mode,
}

/// The options read so far, with the notes by their text.
pub struct OptionsBuilderView<Mode> {
    /// Whether setters are emitted.
    pub setter_enabled: Option<bool>,
    /// The setter pattern.
    pub setter_pattern: Option<SetterPattern>,
    /// The setters' prefix.
    pub setter_prefix: Option<String>,
    /// The setters' visibility.
    pub setter_vis: Option<Visibility>,
    /// Deprecation notes collected while reading.
    pub deprecation_notes: Seq<Seq<char>>,
    /// Where the options are read.
    pub mode: Mode,
}

impl<Mode: OptionsBuilderMode> View for OptionsBuilder<Mode> {
    type V = OptionsBuilderView<Mode>;

    open spec fn view(&self) -> OptionsBuilderView<Mode> {
        OptionsBuilderView {
            setter_enabled: self.setter_enabled,
            setter_pattern: self.setter_pattern,
            setter_prefix: self.setter_prefix,
            setter_vis: self.setter_vis,
            deprecation_notes: self.deprecation_notes@,
            mode: self.mode,
        }
    }
}

impl Default for OptionsBuilder<StructMode> {
    fn default() -> (r: Self)
        ensures
            r@.setter_enabled is None,
            r@.setter_pattern is None,
            r@.setter_prefix is None,
            r@.setter_vis is None,
            r@.deprecation_notes == Seq::<Seq<char>>::empty(),
            r@.mode.builder_name is None,
            r@.mode.builder_vis is None,
            r@.mode.struct_vis is None,
    {
        OptionsBuilder {
            setter_enabled: None,
            setter_pattern: None,
            setter_prefix: None,
            setter_vis: None,
            deprecation_notes: DeprecationNotes::new(),
            mode: StructMode::default(),
        }
    }
}

impl Default for OptionsBuilder<FieldMode> {
    fn default() -> (r: Self)
        ensures
            r@.setter_enabled is None,
            r@.setter_pattern is None,
            r@.setter_prefix is None,
            r@.setter_vis is None,
            r@.deprecation_notes == Seq::<Seq<char>>::empty(),
    {
        OptionsBuilder {
            setter_enabled: None,
            setter_pattern: None,
            setter_prefix: None,
            setter_vis: None,
            deprecation_notes: DeprecationNotes::new(),
            mode: FieldMode,
        }
    }
}

/// The setter pattern named by `s`, if any.
pub open spec fn spec_pattern_value(s: Seq<char>) -> Option<SetterPattern> {
    if s == "owned"@ {
        Some(SetterPattern::Owned)
    } else if s == "mutable"@ {
        Some(SetterPattern::Mutable)
    } else if s == "immutable"@ {
        Some(SetterPattern::Immutable)
    } else {
        None
    }
}

/// The note recorded for the deprecated `setter_prefix = "..."`.
pub open spec fn prefix_note(lit: Lit) -> Seq<char> {
    let val = string_literal_text(lit_str_value(lit)@);
    "warning: deprecated syntax `#[builder(setter_prefix="@ + val
        + ")]`, please use `#[builder(setter(prefix="@ + val + "))]` instead!"@
}

/// Whether an item of `setter(...)` can be read.
pub open spec fn valid_setter_item(n: NestedMetaItem) -> bool {
    match n {
        NestedMetaItem::Literal(_) => true,
        NestedMetaItem::MetaItem(MetaItem::Word(id)) => id@ == "public"@ || id@ == "private"@
            || id@ == "skip"@,
        NestedMetaItem::MetaItem(MetaItem::NameValue(id, lit)) => (id@ == "prefix"@
            && is_cooked_str(lit)) || (id@ == "skip"@ && spec_lit_bool(lit) is Ok),
        NestedMetaItem::MetaItem(MetaItem::List(_, _)) => false,
    }
}

/// Whether an item of `builder(...)` can be read in the given mode.
pub open spec fn valid_builder_item<Mode: OptionsBuilderMode>(n: NestedMetaItem) -> bool {
    match n {
        NestedMetaItem::Literal(_) => false,
        NestedMetaItem::MetaItem(MetaItem::Word(id)) => id@ == "public"@ || id@ == "private"@
            || id@ == "setter"@,
        NestedMetaItem::MetaItem(MetaItem::NameValue(id, lit)) => is_cooked_str(lit) && (
        id@ == "setter_prefix"@ || (id@ == "pattern"@ && spec_pattern_value(lit_str_value(lit)@) is Some) || (id@
            == "name"@ && Mode::accepts_builder_name())),
        NestedMetaItem::MetaItem(MetaItem::List(id, nested)) => id@ == "setter"@ && forall|i: int|
            0 <= i < nested@.len() ==> valid_setter_item(#[trigger] nested@[i]),
    }
}

/// Whether an attribute is a `builder` attribute that is read.
pub open spec fn is_builder_attr(attr: Attribute) -> bool {
    spec_meta_name(attr.value) == "builder"@ && attr.style is Outer && !attr.is_sugared_doc
}

/// Whether an attribute can be read in the given mode: any other than a
/// `builder` attribute is ignored; a `builder` attribute is a list of
/// options that are all understood.
pub open spec fn valid_attr<Mode: OptionsBuilderMode>(attr: Attribute) -> bool {
    is_builder_attr(attr) ==> (attr.value matches MetaItem::List(_, nested) && forall|i: int|
        0 <= i < nested@.len() ==> valid_builder_item::<Mode>(#[trigger] nested@[i]))
}

/// Whether all attributes can be read in the given mode.
pub open spec fn valid_attrs<Mode: OptionsBuilderMode>(attrs: Seq<Attribute>) -> bool {
    forall|i: int| 0 <= i < attrs.len() ==> valid_attr::<Mode>(#[trigger] attrs[i])
}

/// `st` with setters enabled or disabled.
pub open spec fn with_enabled<Mode>(st: OptionsBuilderView<Mode>, b: bool) -> OptionsBuilderView<Mode> {
    OptionsBuilderView { setter_enabled: Some(b), ..st }
}

/// `st` with the setters' visibility set.
pub open spec fn with_vis<Mode>(st: OptionsBuilderView<Mode>, v: Visibility) -> OptionsBuilderView<Mode> {
    OptionsBuilderView { setter_vis: Some(v), ..st }
}

/// Reading one item of `setter(...)`.
pub open spec fn step_setter_item<Mode>(n: NestedMetaItem, st: OptionsBuilderView<Mode>) -> OptionsBuilderView<Mode> {
    match n {
        NestedMetaItem::Literal(_) => with_enabled(st, true),
        NestedMetaItem::MetaItem(m) => {
            let s1 = match m {
                MetaItem::Word(id) => if id@ == "public"@ {
                    with_vis(st, Visibility::Public)
                } else if id@ == "private"@ {
                    with_vis(st, Visibility::Inherited)
                } else {
                    with_enabled(st, false)
                },
                MetaItem::NameValue(id, lit) => if id@ == "prefix"@ {
                    OptionsBuilderView { setter_prefix: Some(lit_str_value(lit)), ..st }
                } else {
                    with_enabled(st, !(spec_lit_bool(lit)->Ok_0))
                },
                MetaItem::List(_, _) => st,
            };
            if s1.setter_enabled is None {
                with_enabled(s1, true)
            } else {
                s1
            }
        },
    }
}

/// Reading the items of `setter(...)`, in order.
pub open spec fn fold_setter_items<Mode>(items: Seq<NestedMetaItem>, st: OptionsBuilderView<Mode>) -> OptionsBuilderView<Mode>
    decreases items.len(),
{
    if items.len() == 0 {
        st
    } else {
        fold_setter_items(items.drop_first(), step_setter_item(items[0], st))
    }
}

/// Reading one item of `builder(...)`.
pub open spec fn step_builder_item<Mode: OptionsBuilderMode>(n: NestedMetaItem, st: OptionsBuilderView<Mode>) -> OptionsBuilderView<Mode> {
    match n {
        NestedMetaItem::Literal(_) => st,
        NestedMetaItem::MetaItem(MetaItem::Word(id)) => if id@ == "public"@ {
            with_vis(st, Visibility::Public)
        } else if id@ == "private"@ {
            with_vis(st, Visibility::Inherited)
        } else {
            with_enabled(st, true)
        },
        NestedMetaItem::MetaItem(MetaItem::NameValue(id, lit)) => if id@ == "setter_prefix"@ {
            OptionsBuilderView {
                deprecation_notes: st.deprecation_notes.push(prefix_note(lit)),
                setter_prefix: Some(lit_str_value(lit)),
                ..st
            }
        } else if id@ == "pattern"@ {
            OptionsBuilderView {
                setter_pattern: spec_pattern_value(lit_str_value(lit)@),
                ..st
            }
        } else {
            OptionsBuilderView { mode: st.mode.spec_with_builder_name(lit_str_value(lit)), ..st }
        },
        NestedMetaItem::MetaItem(MetaItem::List(_, nested)) => fold_setter_items(nested@, st),
    }
}

/// Reading the items of `builder(...)`, in order.
pub open spec fn fold_builder_items<Mode: OptionsBuilderMode>(items: Seq<NestedMetaItem>, st: OptionsBuilderView<Mode>) -> OptionsBuilderView<Mode>
    decreases items.len(),
{
    if items.len() == 0 {
        st
    } else {
        fold_builder_items(items.drop_first(), step_builder_item(items[0], st))
    }
}

/// Reading one attribute: a `builder` attribute enables setters, then its
/// options are read in order; any other attribute is ignored.
pub open spec fn step_attr<Mode: OptionsBuilderMode>(attr: Attribute, st: OptionsBuilderView<Mode>) -> OptionsBuilderView<Mode> {
    if is_builder_attr(attr) {
        match attr.value {
            MetaItem::List(_, nested) => fold_builder_items(nested@, with_enabled(st, true)),
            _ => st,
        }
    } else {
        st
    }
}

/// Reading attributes, in order.
pub open spec fn fold_attrs<Mode: OptionsBuilderMode>(attrs: Seq<Attribute>, st: OptionsBuilderView<Mode>) -> OptionsBuilderView<Mode>
    decreases attrs.len(),
{
    if attrs.len() == 0 {
        st
    } else {
        fold_attrs(attrs.drop_first(), step_attr(attrs[0], st))
    }
}

impl<Mode: OptionsBuilderMode> OptionsBuilder<Mode> {
    fn setter_enabled(&mut self, x: bool)
        ensures
            final(self)@ == with_enabled(old(self)@, x),
    {
        self.setter_enabled = Some(x);
    }

    fn setter_pattern(&mut self, x: SetterPattern)
        ensures
            final(self)@ == (OptionsBuilderView { setter_pattern: Some(x), ..old(self)@ }),
    {
        self.setter_pattern = Some(x);
    }

    /// Makes setters public (`x`) or private.
    fn setter_public(&mut self, x: bool)
        ensures
            final(self)@ == with_vis(
                old(self)@,
                if x {
                    Visibility::Public
                } else {
                    Visibility::Inherited
                },
            ),
    {
        self.setter_vis = Some(
            if x {
                Visibility::Public
            } else {
                Visibility::Inherited
            },
        );
    }

    fn push_deprecation_note(&mut self, x: String)
        ensures
            final(self)@ == (OptionsBuilderView {
                deprecation_notes: old(self)@.deprecation_notes.push(x@),
                ..old(self)@
            }),
    {
        self.deprecation_notes.push(x);
    }

    /// Reads the options of the given attributes, in order.
    pub fn parse_attributes(&mut self, attributes: &Vec<Attribute>)
        requires
            valid_attrs::<Mode>(attributes@),
        ensures
            final(self)@ == fold_attrs(attributes@, old(self)@),
    {
        let mut i: usize = 0;
        assert(attributes@.skip(0) =~= attributes@);
        while i < attributes.len()
            invariant
                i <= attributes@.len(),
                valid_attrs::<Mode>(attributes@),
                fold_attrs(attributes@, old(self)@) == fold_attrs(attributes@.skip(i as int), self@),
            decreases attributes@.len() - i,
        {
            assert(attributes@.skip(i as int).drop_first() =~= attributes@.skip(i + 1));
            self.parse_attribute(&attributes[i]);
            i = i + 1;
        }
        assert(attributes@.skip(i as int) =~= Seq::<Attribute>::empty());
    }

    fn parse_attribute(&mut self, attr: &Attribute)
        requires
            valid_attr::<Mode>(*attr),
        ensures
            final(self)@ == step_attr(*attr, old(self)@),
    {
        if !str_eq(meta_name(&attr.value), "builder") {
            return;
        }
        if let AttrStyle::Inner = attr.style {
            return;
        }
        if attr.is_sugared_doc {
            return;
        }
        if let MetaItem::List(_, nested_attrs) = &attr.value {
            self.setter_enabled(true);
            self.parse_builder_options(nested_attrs);
        }
    }

    fn parse_builder_options(&mut self, nested: &Vec<NestedMetaItem>)
        requires
            forall|i: int| 0 <= i < nested@.len() ==> valid_builder_item::<Mode>(#[trigger] nested@[i]),
        ensures
            final(self)@ == fold_builder_items(nested@, old(self)@),
    {
        let mut i: usize = 0;
        assert(nested@.skip(0) =~= nested@);
        while i < nested.len()
            invariant
                i <= nested@.len(),
                forall|j: int| 0 <= j < nested@.len() ==> valid_builder_item::<Mode>(#[trigger] nested@[j]),
                fold_builder_items(nested@, old(self)@) == fold_builder_items(nested@.skip(i as int), self@),
            decreases nested@.len() - i,
        {
            assert(nested@.skip(i as int).drop_first() =~= nested@.skip(i + 1));
            assert(valid_builder_item::<Mode>(nested@[i as int]));
            if let NestedMetaItem::MetaItem(meta_item) = &nested[i] {
                self.parse_builder_options_metaItem(meta_item);
            }
            i = i + 1;
        }
        assert(nested@.skip(i as int) =~= Seq::<NestedMetaItem>::empty());
    }

    #[allow(non_snake_case)]
    fn parse_builder_options_metaItem(&mut self, meta_item: &MetaItem)
        requires
            valid_builder_item::<Mode>(NestedMetaItem::MetaItem(*meta_item)),
        ensures
            final(self)@ == step_builder_item(NestedMetaItem::MetaItem(*meta_item), old(self)@),
    {
        match meta_item {
            MetaItem::Word(ident) => self.parse_builder_options_word(ident),
            MetaItem::NameValue(ident, lit) => self.parse_builder_options_nameValue(ident, lit),
            MetaItem::List(_, nested_attrs) => self.parse_setter_options(nested_attrs),
        }
    }

    /// e.g `private` in `#[builder(private)]`
    fn parse_builder_options_word(&mut self, ident: &String)
        requires
            ident@ == "public"@ || ident@ == "private"@ || ident@ == "setter"@,
        ensures
            final(self)@ == step_builder_item(
                NestedMetaItem::MetaItem(MetaItem::Word(*ident)),
                old(self)@,
            ),
    {
        if str_eq(ident.as_str(), "public") {
            self.setter_public(true);
        } else if str_eq(ident.as_str(), "private") {
            self.setter_public(false);
        } else {
            self.setter_enabled(true);
        }
    }

    /// e.g `setter_prefix="with"` in `#[builder(setter_prefix="with")]`
    #[allow(non_snake_case)]
    fn parse_builder_options_nameValue(&mut self, ident: &String, lit: &Lit)
        requires
            valid_builder_item::<Mode>(NestedMetaItem::MetaItem(MetaItem::NameValue(*ident, *lit))),
        ensures
            final(self)@ == step_builder_item(
                NestedMetaItem::MetaItem(MetaItem::NameValue(*ident, *lit)),
                old(self)@,
            ),
    {
        proof {
            reveal_strlit("setter_prefix");
            reveal_strlit("pattern");
            reveal_strlit("name");
        }
        if str_eq(ident.as_str(), "setter_prefix") {
            let val = match lit {
                Lit::Str(v, _) => string_literal(v.as_str()),
                _ => String::new(),
            };
            let mut note = to_owned_string("warning: deprecated syntax `#[builder(setter_prefix=");
            push_str(&mut note, val.as_str());
            push_str(&mut note, ")]`, please use `#[builder(setter(prefix=");
            push_str(&mut note, val.as_str());
            push_str(&mut note, "))]` instead!");
            self.push_deprecation_note(note);
            self.parse_setter_prefix(lit);
        } else if str_eq(ident.as_str(), "pattern") {
            assert(ident@ == "pattern"@);
            assert(ident@.len() != "name"@.len());
            self.parse_setter_pattern(lit);
        } else {
            self.mode.parse_builder_name(lit);
        }
    }

    /// e.g `skip` in `#[builder(setter(skip))]`
    fn parse_setter_options(&mut self, nested: &Vec<NestedMetaItem>)
        requires
            forall|i: int| 0 <= i < nested@.len() ==> valid_setter_item(#[trigger] nested@[i]),
        ensures
            final(self)@ == fold_setter_items(nested@, old(self)@),
    {
        let mut i: usize = 0;
        assert(nested@.skip(0) =~= nested@);
        while i < nested.len()
            invariant
                i <= nested@.len(),
                forall|j: int| 0 <= j < nested@.len() ==> valid_setter_item(#[trigger] nested@[j]),
                fold_setter_items(nested@, old(self)@) == fold_setter_items(nested@.skip(i as int), self@),
            decreases nested@.len() - i,
        {
            assert(nested@.skip(i as int).drop_first() =~= nested@.skip(i + 1));
            assert(valid_setter_item(nested@[i as int]));
            match &nested[i] {
                NestedMetaItem::MetaItem(meta_item) => {
                    self.parse_setter_options_metaItem(meta_item);
                    if self.setter_enabled.is_none() {
                        self.setter_enabled(true);
                    }
                },
                NestedMetaItem::Literal(_) => {
                    self.setter_enabled(true);
                },
            }
            i = i + 1;
        }
        assert(nested@.skip(i as int) =~= Seq::<NestedMetaItem>::empty());
    }

    #[allow(non_snake_case)]
    fn parse_setter_options_metaItem(&mut self, meta_item: &MetaItem)
        requires
            valid_setter_item(NestedMetaItem::MetaItem(*meta_item)),
        ensures
            final(self)@ == match *meta_item {
                MetaItem::Word(id) => if id@ == "public"@ {
                    with_vis(old(self)@, Visibility::Public)
                } else if id@ == "private"@ {
                    with_vis(old(self)@, Visibility::Inherited)
                } else {
                    with_enabled(old(self)@, false)
                },
                MetaItem::NameValue(id, lit) => if id@ == "prefix"@ {
                    OptionsBuilderView { setter_prefix: Some(lit_str_value(lit)), ..old(self)@ }
                } else {
                    with_enabled(old(self)@, !(spec_lit_bool(lit)->Ok_0))
                },
                MetaItem::List(_, _) => old(self)@,
            },
    {
        match meta_item {
            MetaItem::Word(ident) => {
                if str_eq(ident.as_str(), "public") {
                    self.setter_public(true);
                } else if str_eq(ident.as_str(), "private") {
                    self.setter_public(false);
                } else {
                    self.setter_enabled(false);
                }
            },
            MetaItem::NameValue(ident, lit) => {
                proof {
                    reveal_strlit("prefix");
                    reveal_strlit("skip");
                }
                if str_eq(ident.as_str(), "prefix") {
                    assert(ident@ == "prefix"@);
                    assert(ident@.len() != "skip"@.len());
                    self.parse_setter_prefix(lit);
                } else {
                    self.parse_setter_skip(lit);
                }
            },
            MetaItem::List(_, _) => {},
        }
    }

    fn parse_setter_prefix(&mut self, lit: &Lit)
        requires
            is_cooked_str(*lit),
        ensures
            final(self)@ == (OptionsBuilderView {
                setter_prefix: Some(lit_str_value(*lit)),
                ..old(self)@
            }),
    {
        if let Ok(value) = parse_lit_as_cooked_string(lit) {
            self.setter_prefix = Some(value.clone());
        }
    }

    fn parse_setter_pattern(&mut self, lit: &Lit)
        requires
            is_cooked_str(*lit),
            spec_pattern_value(lit_str_value(*lit)@) is Some,
        ensures
            final(self)@ == (OptionsBuilderView {
                setter_pattern: spec_pattern_value(lit_str_value(*lit)@),
                ..old(self)@
            }),
    {
        if let Ok(value) = parse_lit_as_cooked_string(lit) {
            if str_eq(value.as_str(), "owned") {
                self.setter_pattern(SetterPattern::Owned);
            } else if str_eq(value.as_str(), "mutable") {
                self.setter_pattern(SetterPattern::Mutable);
            } else {
                self.setter_pattern(SetterPattern::Immutable);
            }
        }
    }

    fn parse_setter_skip(&mut self, skip: &Lit)
        requires
            spec_lit_bool(*skip) is Ok,
        ensures
            final(self)@ == with_enabled(old(self)@, !(spec_lit_bool(*skip)->Ok_0)),
    {
        if let Ok(b) = parse_lit_as_bool(skip) {
            self.setter_enabled(!b);
        }
    }
}

/// The reading state before any attribute of the struct was read.
pub open spec fn struct_initial(ast: MacroInput) -> OptionsBuilderView<StructMode> {
    OptionsBuilderView {
        setter_enabled: None,
        setter_pattern: None,
        setter_prefix: None,
        setter_vis: None,
        deprecation_notes: Seq::empty(),
        mode: StructMode {
            builder_name: None,
            builder_vis: None,
            struct_name: ast.ident,
            struct_vis: Some(ast.vis),
        },
    }
}

/// The reading state before any attribute of a field was read.
pub open spec fn field_initial() -> OptionsBuilderView<FieldMode> {
    OptionsBuilderView {
        setter_enabled: None,
        setter_pattern: None,
        setter_prefix: None,
        setter_vis: None,
        deprecation_notes: Seq::empty(),
        mode: FieldMode,
    }
}

/// The struct's options, from the state after reading its attributes: what
/// was read, else the defaults.
pub open spec fn spec_struct_options_of(st: OptionsBuilderView<StructMode>) -> StructOptionsView {
    StructOptionsView {
        builder_name: match st.mode.builder_name {
            Some(n) => n@,
            None => st.mode.struct_name@ + "Builder"@,
        },
        builder_vis: match st.mode.builder_vis {
            Some(v) => v,
            None => st.mode.struct_vis->Some_0,
        },
        field_defaults: FieldOptionsView {
            setter_enabled: match st.setter_enabled {
                Some(b) => b,
                None => true,
            },
            setter_pattern: match st.setter_pattern {
                Some(p) => p,
                None => SetterPattern::Mutable,
            },
            setter_prefix: match st.setter_prefix {
                Some(p) => p@,
                None => Seq::empty(),
            },
            setter_vis: match st.setter_vis {
                Some(v) => v,
                None => Visibility::Public,
            },
            field_name: Seq::empty(),
            deprecation_notes: st.deprecation_notes,
        },
    }
}

/// The struct's options, read from its attributes.
pub open spec fn spec_struct_options(ast: MacroInput) -> StructOptionsView {
    spec_struct_options_of(fold_attrs(ast.attrs@, struct_initial(ast)))
}

/// A field's options, from the state after reading its attributes: what was
/// read, else the struct's; the field's own deprecation notes only.
pub open spec fn spec_field_options_of(
    st: OptionsBuilderView<FieldMode>,
    name: Seq<char>,
    x: FieldOptionsView,
) -> FieldOptionsView {
    FieldOptionsView {
        setter_enabled: match st.setter_enabled {
            Some(b) => b,
            None => x.setter_enabled,
        },
        setter_pattern: match st.setter_pattern {
            Some(p) => p,
            None => x.setter_pattern,
        },
        setter_prefix: match st.setter_prefix {
            Some(p) => p@,
            None => x.setter_prefix,
        },
        setter_vis: match st.setter_vis {
            Some(v) => v,
            None => x.setter_vis,
        },
        field_name: name,
        deprecation_notes: st.deprecation_notes,
    }
}

/// Reading `setter(...)` leaves the mode as it is.
proof fn lemma_setter_items_keep_mode<Mode>(items: Seq<NestedMetaItem>, st: OptionsBuilderView<Mode>)
    ensures
        fold_setter_items(items, st).mode == st.mode,
    decreases items.len(),
{
    if items.len() > 0 {
        lemma_setter_items_keep_mode(items.drop_first(), step_setter_item(items[0], st));
    }
}

/// Reading `builder(...)` on the struct changes no part of the mode but the
/// builder's name.
proof fn lemma_builder_items_keep_struct(items: Seq<NestedMetaItem>, st: OptionsBuilderView<StructMode>)
    ensures
        fold_builder_items(items, st).mode.builder_vis == st.mode.builder_vis,
        fold_builder_items(items, st).mode.struct_name == st.mode.struct_name,
        fold_builder_items(items, st).mode.struct_vis == st.mode.struct_vis,
    decreases items.len(),
{
    if items.len() > 0 {
        let next = step_builder_item(items[0], st);
        if let NestedMetaItem::MetaItem(MetaItem::List(_, nested)) = items[0] {
            lemma_setter_items_keep_mode(nested@, st);
        }
        lemma_builder_items_keep_struct(items.drop_first(), next);
    }
}

/// Reading the struct's attributes changes no part of the mode but the
/// builder's name.
proof fn lemma_attrs_keep_struct(attrs: Seq<Attribute>, st: OptionsBuilderView<StructMode>)
    ensures
        fold_attrs(attrs, st).mode.builder_vis == st.mode.builder_vis,
        fold_attrs(attrs, st).mode.struct_name == st.mode.struct_name,
        fold_attrs(attrs, st).mode.struct_vis == st.mode.struct_vis,
    decreases attrs.len(),
{
    if attrs.len() > 0 {
        let next = step_attr(attrs[0], st);
        if is_builder_attr(attrs[0]) {
            if let MetaItem::List(_, nested) = attrs[0].value {
                lemma_builder_items_keep_struct(nested@, with_enabled(st, true));
            }
        }
        lemma_attrs_keep_struct(attrs.drop_first(), next);
    }
}

/// The builder always has the struct's visibility: no option changes it.
pub proof fn law_builder_has_struct_visibility(ast: MacroInput)
    ensures
        spec_struct_options(ast).builder_vis == ast.vis,
{
    lemma_attrs_keep_struct(ast.attrs@, struct_initial(ast));
}

impl StructOptions {
    /// Reads the struct's options from its attributes.
    pub fn from_input(ast: &MacroInput) -> (r: StructOptions)
        requires
            valid_attrs::<StructMode>(ast.attrs@),
        ensures
            r@ == spec_struct_options(*ast),
    {
        let mut builder = OptionsBuilder::<StructMode>::default();
        builder.mode.struct_name = ast.ident.clone();
        builder.mode.struct_vis = Some(ast.vis.duplicate());
        assert(builder@ == struct_initial(*ast));
        builder.parse_attributes(&ast.attrs);
        proof {
            lemma_attrs_keep_struct(ast.attrs@, struct_initial(*ast));
        }
        StructOptions::from_builder(builder)
    }

    /// The struct's options from what was read, with defaults for the rest.
    pub fn from_builder(b: OptionsBuilder<StructMode>) -> (r: StructOptions)
        requires
            b.mode.struct_vis is Some,
        ensures
            r@ == spec_struct_options_of(b@),
    {
        let field_defaults = FieldOptions {
            setter_enabled: match b.setter_enabled {
                Some(x) => x,
                None => true,
            },
            setter_pattern: match b.setter_pattern {
                Some(p) => p,
                None => SetterPattern::default(),
            },
            setter_prefix: match &b.setter_prefix {
                Some(p) => p.clone(),
                None => String::new(),
            },
            setter_vis: match &b.setter_vis {
                Some(v) => v.duplicate(),
                None => Visibility::Public,
            },
            deprecation_notes: b.deprecation_notes.duplicate(),
            field_name: String::new(),
        };
        let builder_name = match &b.mode.builder_name {
            Some(n) => n.clone(),
            None => {
                let mut n = b.mode.struct_name.clone();
                push_str(&mut n, "Builder");
                n
            },
        };
        let builder_vis = match &b.mode.builder_vis {
            Some(v) => v.duplicate(),
            None => match &b.mode.struct_vis {
                Some(v) => v.duplicate(),
                None => Visibility::Inherited,
            },
        };
        StructOptions { field_defaults, builder_name, builder_vis }
    }
}

/// `a`, or `b` where `a` is unset.
pub open spec fn or_else<T>(a: Option<T>, b: Option<T>) -> Option<T> {
    match a {
        Some(x) => Some(x),
        None => b,
    }
}

impl OptionsBuilder<FieldMode> {
    /// If any option is unset, falls back on the one of `defaults`; the
    /// deprecation notes of both are kept, these first.
    pub fn with_defaults(self, defaults: &Self) -> (r: Self)
        ensures
            r@.setter_enabled == or_else(self@.setter_enabled, defaults@.setter_enabled),
            r@.setter_pattern == or_else(self@.setter_pattern, defaults@.setter_pattern),
            r@.setter_prefix == or_else(self@.setter_prefix, defaults@.setter_prefix),
            r@.setter_vis == or_else(self@.setter_vis, defaults@.setter_vis),
            r@.deprecation_notes == self@.deprecation_notes + defaults@.deprecation_notes,
    {
        let mut deprecation_notes = self.deprecation_notes;
        let ghost start = deprecation_notes@;
        let more = defaults.deprecation_notes.notes();
        let mut i: usize = 0;
        while i < more.len()
            invariant
                i <= more@.len(),
                crate::text::strings_view(more@) == defaults@.deprecation_notes,
                deprecation_notes@ == start + crate::text::strings_view(more@).subrange(0, i as int),
            decreases more@.len() - i,
        {
            deprecation_notes.push(more[i].clone());
            assert(deprecation_notes@ =~= start + crate::text::strings_view(more@).subrange(0, i + 1));
            i = i + 1;
        }
        assert(crate::text::strings_view(more@).subrange(0, more@.len() as int) =~= crate::text::strings_view(more@));
        OptionsBuilder {
            setter_enabled: match self.setter_enabled {
                Some(b) => Some(b),
                None => defaults.setter_enabled,
            },
            setter_pattern: match self.setter_pattern {
                Some(p) => Some(p),
                None => defaults.setter_pattern,
            },
            setter_prefix: match self.setter_prefix {
                Some(p) => Some(p),
                None => match &defaults.setter_prefix {
                    Some(p) => Some(p.clone()),
                    None => None,
                },
            },
            setter_vis: match self.setter_vis {
                Some(v) => Some(v),
                None => match &defaults.setter_vis {
                    Some(v) => Some(v.duplicate()),
                    None => None,
                },
            },
            deprecation_notes,
            mode: FieldMode,
        }
    }

    /// The field's options: what was read, else the struct's.
    pub fn build(&self, name: &str, struct_opts: &StructOptions) -> (r: FieldOptions)
        ensures
            r@ == spec_field_options_of(self@, name@, struct_opts@.field_defaults),
    {
        let x = struct_opts.field_defaults();
        FieldOptions {
            setter_enabled: match self.setter_enabled {
                Some(b) => b,
                None => x.setter_enabled,
            },
            setter_pattern: match self.setter_pattern {
                Some(p) => p,
                None => x.setter_pattern,
            },
            setter_prefix: match &self.setter_prefix {
                Some(p) => p.clone(),
                None => x.setter_prefix.clone(),
            },
            setter_vis: match &self.setter_vis {
                Some(v) => v.duplicate(),
                None => x.setter_vis.duplicate(),
            },
            field_name: to_owned_string(name),
            deprecation_notes: self.deprecation_notes.duplicate(),
        }
    }
}

} // verus!
