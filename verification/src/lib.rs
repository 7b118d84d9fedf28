//! Turns a sequence of parsed type declarations (structs, enums, traits) and
//! their implementation blocks into a UML-style class diagram: labeled nodes
//! and directed, styled relationship edges.
//!
//! The crate covers the relationship-inference and graph-assembly engine:
//! grouping declarations with their implementation blocks, normalizing each
//! declaration's shape, classifying the relation between every two
//! declarations, and assembling a deduplicated node/edge graph with rendering
//! attributes. Source parsing and diagram rasterization are external
//! collaborators that hand plain values in and take plain values out.

pub mod abstraction;
pub mod compare;
pub mod escape;
pub mod graph;
pub mod implem;
pub mod item;
pub mod label;
pub mod laws;
pub mod method;
pub mod module;
pub mod paths;
pub mod raw;
pub mod relation;
pub mod state;
pub mod text;

use vstd::prelude::*;

verus! {

/// The default name of the graph description file.
pub const DEFAULT_NAME_DOT: &'static str = "ml.dot";

/// The default name of the rendered image file.
pub const DEFAULT_NAME_PNG: &'static str = "ml.svg";

/// The display configuration of the label formatter: which body blocks a
/// node label includes, the section colors, the font, and the optional
/// URL mask for source links. It never affects relation classification.
pub struct Config {
    pub include_methods: bool,
    pub include_fields: bool,
    pub include_implems: bool,
    pub struct_header_bgcolor: String,
    pub struct_fields_bgcolor: String,
    pub struct_method_bgcolor: String,
    pub struct_implem_bgcolor: String,
    pub enum_header_bgcolor: String,
    pub enum_fields_bgcolor: String,
    pub enum_method_bgcolor: String,
    pub enum_implem_bgcolor: String,
    pub trait_header_bgcolor: String,
    pub trait_method_bgcolor: String,
    pub trait_implem_bgcolor: String,
    pub font_name: String,
    pub src_url_mask: String,
}

/// Ghost image of a `Config`.
#[verifier::ext_equal]
pub struct ConfigV {
    pub include_methods: bool,
    pub include_fields: bool,
    pub include_implems: bool,
    pub struct_header_bgcolor: Seq<char>,
    pub struct_fields_bgcolor: Seq<char>,
    pub struct_method_bgcolor: Seq<char>,
    pub struct_implem_bgcolor: Seq<char>,
    pub enum_header_bgcolor: Seq<char>,
    pub enum_fields_bgcolor: Seq<char>,
    pub enum_method_bgcolor: Seq<char>,
    pub enum_implem_bgcolor: Seq<char>,
    pub trait_header_bgcolor: Seq<char>,
    pub trait_method_bgcolor: Seq<char>,
    pub trait_implem_bgcolor: Seq<char>,
    pub font_name: Seq<char>,
    pub src_url_mask: Seq<char>,
}

impl DeepView for Config {
    type V = ConfigV;

    open spec fn deep_view(&self) -> ConfigV {
        ConfigV {
            include_methods: self.include_methods,
            include_fields: self.include_fields,
            include_implems: self.include_implems,
            struct_header_bgcolor: self.struct_header_bgcolor@,
            struct_fields_bgcolor: self.struct_fields_bgcolor@,
            struct_method_bgcolor: self.struct_method_bgcolor@,
            struct_implem_bgcolor: self.struct_implem_bgcolor@,
            enum_header_bgcolor: self.enum_header_bgcolor@,
            enum_fields_bgcolor: self.enum_fields_bgcolor@,
            enum_method_bgcolor: self.enum_method_bgcolor@,
            enum_implem_bgcolor: self.enum_implem_bgcolor@,
            trait_header_bgcolor: self.trait_header_bgcolor@,
            trait_method_bgcolor: self.trait_method_bgcolor@,
            trait_implem_bgcolor: self.trait_implem_bgcolor@,
            font_name: self.font_name@,
            src_url_mask: self.src_url_mask@,
        }
    }
}

/// The image of the default configuration: fields and methods included,
/// realizations omitted (they duplicate the methods), the stock colors
/// and font, and no source links until a mask is supplied.
pub open spec fn default_config() -> ConfigV {
    ConfigV {
        include_methods: true,
        include_fields: true,
        include_implems: false,
        struct_header_bgcolor: "lightblue"@,
        struct_fields_bgcolor: "white"@,
        struct_method_bgcolor: "white"@,
        struct_implem_bgcolor: "white"@,
        enum_header_bgcolor: "yellow"@,
        enum_fields_bgcolor: "white"@,
        enum_method_bgcolor: "white"@,
        enum_implem_bgcolor: "white"@,
        trait_header_bgcolor: "lightgreen"@,
        trait_method_bgcolor: "white"@,
        trait_implem_bgcolor: "white"@,
        font_name: "Arial"@,
        src_url_mask: Seq::empty(),
    }
}

impl Default for Config {
    /// The stock configuration.
    fn default() -> (r: Config)
        ensures
            r.deep_view() == default_config(),
    {
        let r = Config {
            include_methods: true,
            include_fields: true,
            include_implems: false,
            struct_header_bgcolor: "lightblue".to_owned(),
            struct_fields_bgcolor: "white".to_owned(),
            struct_method_bgcolor: "white".to_owned(),
            struct_implem_bgcolor: "white".to_owned(),
            enum_header_bgcolor: "yellow".to_owned(),
            enum_fields_bgcolor: "white".to_owned(),
            enum_method_bgcolor: "white".to_owned(),
            enum_implem_bgcolor: "white".to_owned(),
            trait_header_bgcolor: "lightgreen".to_owned(),
            trait_method_bgcolor: "white".to_owned(),
            trait_implem_bgcolor: "white".to_owned(),
            font_name: "Arial".to_owned(),
            src_url_mask: String::new(),
        };
        proof {
            assert(r.deep_view() =~~= default_config());
        }
        r
    }
}

/// A write-once slot for the configuration. The configuration is never
/// process-wide state: callers own a slot and thread it to the label
/// formatter explicitly.
pub struct ConfigCell {
    pub inner: Option<Config>,
}

impl ConfigCell {
    /// An unset slot.
    pub fn new() -> (r: ConfigCell)
        ensures
            r.inner is None,
    {
        ConfigCell { inner: None }
    }
}

impl Config {
    /// Installs a configuration into a slot that was not set before.
    pub fn set_global(config: Config, cell: &mut ConfigCell)
        requires
            old(cell).inner is None,
        ensures
            final(cell).inner matches Some(c) && c.deep_view() == config.deep_view(),
    {
        cell.inner = Some(config);
    }

    /// Reads the configuration out of a slot that was set.
    pub fn global(cell: &ConfigCell) -> (r: &Config)
        requires
            cell.inner is Some,
        ensures
            cell.inner matches Some(c) && r.deep_view() == c.deep_view(),
    {
        match &cell.inner {
            Some(c) => c,
            None => unreached(),
        }
    }
}

/// The command-line switches that shape a configuration, as plain values:
/// exclusion flags, color overrides, a source-URL mask and a font.
pub struct Cli {
    pub exclude_fields: bool,
    pub exclude_methods: bool,
    pub include_impls: bool,
    pub struct_header_bgcolor: Option<String>,
    pub struct_fields_bgcolor: Option<String>,
    pub struct_method_bgcolor: Option<String>,
    pub struct_impl_bgcolor: Option<String>,
    pub enum_header_bgcolor: Option<String>,
    pub enum_fields_bgcolor: Option<String>,
    pub enum_method_bgcolor: Option<String>,
    pub enum_impl_bgcolor: Option<String>,
    pub trait_header_bgcolor: Option<String>,
    pub trait_method_bgcolor: Option<String>,
    pub trait_impl_bgcolor: Option<String>,
    pub src_url_mask: Option<String>,
    pub font: Option<String>,
}

/// An override where one is given, the default otherwise.
pub open spec fn override_or(v: Option<String>, dflt: Seq<char>) -> Seq<char> {
    match v {
        Some(s) => s@,
        None => dflt,
    }
}

/// The override where one is given, the default otherwise, executed.
fn pick(v: &Option<String>, dflt: &str) -> (r: String)
    ensures
        r@ == override_or(*v, dflt@),
{
    match v {
        Some(s) => s.clone(),
        None => dflt.to_owned(),
    }
}

/// The configuration that a set of command-line switches describes: the
/// defaults, with each given override applied; a mask of `none` switches
/// source links off.
pub fn command_to_config(args: &Cli) -> (r: Config)
    ensures
        r.deep_view().include_fields == !args.exclude_fields,
        r.deep_view().include_methods == !args.exclude_methods,
        r.deep_view().include_implems == args.include_impls,
        r.deep_view().struct_header_bgcolor == override_or(
            args.struct_header_bgcolor,
            "lightblue"@,
        ),
        r.deep_view().struct_fields_bgcolor == override_or(args.struct_fields_bgcolor, "white"@),
        r.deep_view().struct_method_bgcolor == override_or(args.struct_method_bgcolor, "white"@),
        r.deep_view().struct_implem_bgcolor == override_or(args.struct_impl_bgcolor, "white"@),
        r.deep_view().enum_header_bgcolor == override_or(args.enum_header_bgcolor, "yellow"@),
        r.deep_view().enum_fields_bgcolor == override_or(args.enum_fields_bgcolor, "white"@),
        r.deep_view().enum_method_bgcolor == override_or(args.enum_method_bgcolor, "white"@),
        r.deep_view().enum_implem_bgcolor == override_or(args.enum_impl_bgcolor, "white"@),
        r.deep_view().trait_header_bgcolor == override_or(
            args.trait_header_bgcolor,
            "lightgreen"@,
        ),
        r.deep_view().trait_method_bgcolor == override_or(args.trait_method_bgcolor, "white"@),
        r.deep_view().trait_implem_bgcolor == override_or(args.trait_impl_bgcolor, "white"@),
        r.deep_view().font_name == override_or(args.font, "Arial"@),
        r.deep_view().src_url_mask == (match args.src_url_mask {
            Some(v) => if v@ == "none"@ {
                Seq::<char>::empty()
            } else {
                v@
            },
            None => Seq::<char>::empty(),
        }),
{
    let mask: String = match &args.src_url_mask {
        Some(v) => {
            if crate::text::str_eq(v.as_str(), "none") {
                String::new()
            } else {
                v.clone()
            }
        },
        None => String::new(),
    };
    Config {
        include_methods: !args.exclude_methods,
        include_fields: !args.exclude_fields,
        include_implems: args.include_impls,
        struct_header_bgcolor: pick(&args.struct_header_bgcolor, "lightblue"),
        struct_fields_bgcolor: pick(&args.struct_fields_bgcolor, "white"),
        struct_method_bgcolor: pick(&args.struct_method_bgcolor, "white"),
        struct_implem_bgcolor: pick(&args.struct_impl_bgcolor, "white"),
        enum_header_bgcolor: pick(&args.enum_header_bgcolor, "yellow"),
        enum_fields_bgcolor: pick(&args.enum_fields_bgcolor, "white"),
        enum_method_bgcolor: pick(&args.enum_method_bgcolor, "white"),
        enum_implem_bgcolor: pick(&args.enum_impl_bgcolor, "white"),
        trait_header_bgcolor: pick(&args.trait_header_bgcolor, "lightgreen"),
        trait_method_bgcolor: pick(&args.trait_method_bgcolor, "white"),
        trait_implem_bgcolor: pick(&args.trait_impl_bgcolor, "white"),
        font_name: pick(&args.font, "Arial"),
        src_url_mask: mask,
    }
}

} // verus!
