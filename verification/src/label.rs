//! The label formatter: renders one declaration group into the HTML-like
//! table markup of its diagram node — a header with the declaration's
//! name, then body blocks for fields or variants, inherent methods and
//! trait realizations, each included or omitted per the display
//! configuration. All free text is HTML-entity escaped before insertion;
//! an optional source link is built from the URL mask and the group's
//! module path.

use vstd::prelude::*;

use crate::abstraction::{Abstract, AbstractV, TraitSigV, VariantV};
use crate::raw::FieldV;
use crate::escape::{escape_html, html_escaped, url_encoded, url_encode};
use crate::implem::ImplemV;
use crate::method::MethodV;
use crate::paths::joined_segments;
use crate::raw::{Field, Signature, SignatureV, Visibility};
use crate::state::{ItemState, ItemStateV};
use crate::{Config, ConfigV};

verus! {

/// The given parts joined with the given separator between them.
pub open spec fn joined_with(parts: Seq<Seq<char>>, sep: Seq<char>) -> Seq<char>
    decreases parts.len(),
{
    if parts.len() == 0 {
        Seq::empty()
    } else if parts.len() == 1 {
        parts[0]
    } else {
        joined_with(parts.drop_last(), sep) + sep + parts.last()
    }
}

/// The line break that separates entries inside one label block.
pub open spec fn br_sep() -> Seq<char> {
    "<br align=\"left\"/>\n"@
}

/// One field entry before escaping: a `+` or `-` visibility tag, the
/// field's name when it has one, and its type text.
pub open spec fn field_line(f: FieldV) -> Seq<char> {
    (if f.vis is Public {
        "+ "@
    } else {
        "- "@
    }) + (match f.name {
        Some(n) => n + ": "@,
        None => Seq::empty(),
    }) + f.ty
}

/// The escaped field entries of a struct, in order.
pub open spec fn struct_field_lines(fields: Seq<FieldV>) -> Seq<Seq<char>>
    decreases fields.len(),
{
    if fields.len() == 0 {
        Seq::empty()
    } else {
        struct_field_lines(fields.drop_last()).push(html_escaped(field_line(fields.last())))
    }
}

/// One variant entry before escaping: the bare name, or the name with its
/// tuple-field types in parentheses.
pub open spec fn variant_line(v: VariantV) -> Seq<char> {
    if v.tys.len() == 0 {
        v.name
    } else {
        v.name + "("@ + joined_with(v.tys, ", "@) + ")"@
    }
}

/// The escaped variant entries of an enum, in order.
pub open spec fn enum_variant_lines(variants: Seq<VariantV>) -> Seq<Seq<char>>
    decreases variants.len(),
{
    if variants.len() == 0 {
        Seq::empty()
    } else {
        enum_variant_lines(variants.drop_last()).push(
            html_escaped(variant_line(variants.last())),
        )
    }
}

/// One trait method entry before escaping.
pub open spec fn trait_item_line(it: TraitSigV) -> Seq<char> {
    it.name + "("@ + joined_with(it.inputs, ", "@) + ") -> "@ + it.ret
}

/// The escaped associated-method entries of a trait, in order.
pub open spec fn trait_item_lines(items: Seq<TraitSigV>) -> Seq<Seq<char>>
    decreases items.len(),
{
    if items.len() == 0 {
        Seq::empty()
    } else {
        trait_item_lines(items.drop_last()).push(html_escaped(trait_item_line(items.last())))
    }
}

/// The rendered entry of one inherent method: visibility tag, name,
/// parameter types, and the return type when one is written, escaped.
pub open spec fn method_text(m: MethodV) -> Seq<char> {
    html_escaped(
        (if m.vis is Public {
            "+"@
        } else {
            "-"@
        }) + " "@ + m.name + "("@ + joined_with(m.inputs, ", "@) + ")"@ + (match m.ret {
            Some(r) => " -> "@ + r,
            None => Seq::empty(),
        }),
    )
}

/// The rendered texts of all method records, in order.
pub open spec fn method_texts(ms: Seq<MethodV>) -> Seq<Seq<char>>
    decreases ms.len(),
{
    if ms.len() == 0 {
        Seq::empty()
    } else {
        method_texts(ms.drop_last()).push(method_text(ms.last()))
    }
}

/// One realization method entry before escaping: a leading space, the
/// name, parameter types, and the return type when one is written.
pub open spec fn real_sig_line(f: SignatureV) -> Seq<char> {
    " "@ + f.name + "("@ + joined_with(f.inputs, ", "@) + ")"@ + (match f.ret {
        Some(r) => " -> "@ + r,
        None => Seq::empty(),
    })
}

/// The escaped entries of one realization, in order.
pub open spec fn real_sig_lines(sigs: Seq<SignatureV>) -> Seq<Seq<char>>
    decreases sigs.len(),
{
    if sigs.len() == 0 {
        Seq::empty()
    } else {
        real_sig_lines(sigs.drop_last()).push(html_escaped(real_sig_line(sigs.last())))
    }
}

/// The rendered text of one realization record.
pub open spec fn implem_text(im: ImplemV) -> Seq<char> {
    joined_with(real_sig_lines(im.method), br_sep())
}

/// The rendered texts of all realization records, in order.
pub open spec fn implem_texts(ims: Seq<ImplemV>) -> Seq<Seq<char>>
    decreases ims.len(),
{
    if ims.len() == 0 {
        Seq::empty()
    } else {
        implem_texts(ims.drop_last()).push(implem_text(ims.last()))
    }
}

/// A label header row: the declaration's name in bold on the given
/// background.
pub open spec fn header_row(bg: Seq<char>, name: Seq<char>) -> Seq<char> {
    "<tr><td bgcolor=\""@ + bg + "\"><b>"@ + name + "</b></td></tr>"@
}

/// A label body row: pre-rendered content on the given background.
pub open spec fn body_row(bg: Seq<char>, content: Seq<char>) -> Seq<char> {
    "<tr><td align=\"left\" bgcolor=\""@ + bg + "\">"@ + content + "<br align=\"left\"/></td></tr>"@
}

/// The header and shape block of a node label: a struct or enum shows its
/// member block when members exist and the configuration keeps them; a
/// trait shows its method signatures when methods are kept.
pub open spec fn spec_node_part(node: AbstractV, c: ConfigV) -> Seq<char> {
    match node {
        AbstractV::Struct(s) => if s.fields.len() == 0 || !c.include_fields {
            header_row(c.struct_header_bgcolor, s.name)
        } else {
            header_row(c.struct_header_bgcolor, s.name) + body_row(
                c.struct_fields_bgcolor,
                joined_with(struct_field_lines(s.fields), br_sep()),
            )
        },
        AbstractV::Enum(e) => if e.variants.len() == 0 || !c.include_fields {
            header_row(c.enum_header_bgcolor, e.name)
        } else {
            header_row(c.enum_header_bgcolor, e.name) + body_row(
                c.enum_fields_bgcolor,
                joined_with(enum_variant_lines(e.variants), br_sep()),
            )
        },
        AbstractV::Trait(t) => if c.include_methods {
            header_row(c.trait_header_bgcolor, t.name) + body_row(
                c.trait_method_bgcolor,
                joined_with(trait_item_lines(t.items), br_sep()),
            )
        } else {
            header_row(c.trait_header_bgcolor, t.name)
        },
        AbstractV::Empty => Seq::empty(),
    }
}

/// The method-block background of a node kind.
pub open spec fn method_bg(node: AbstractV, c: ConfigV) -> Seq<char> {
    match node {
        AbstractV::Struct(_) => c.struct_method_bgcolor,
        AbstractV::Trait(_) => c.trait_method_bgcolor,
        AbstractV::Enum(_) => c.enum_method_bgcolor,
        AbstractV::Empty => "white"@,
    }
}

/// The realization-block background of a node kind.
pub open spec fn implem_bg(node: AbstractV, c: ConfigV) -> Seq<char> {
    match node {
        AbstractV::Struct(_) => c.struct_implem_bgcolor,
        AbstractV::Trait(_) => c.trait_implem_bgcolor,
        AbstractV::Enum(_) => c.enum_implem_bgcolor,
        AbstractV::Empty => "white"@,
    }
}

/// The inherent-method block of a label: present when the group has
/// method records and the configuration keeps them.
pub open spec fn spec_method_block(s: ItemStateV, c: ConfigV) -> Seq<char> {
    if s.method.len() > 0 && c.include_methods {
        body_row(method_bg(s.node, c), joined_with(method_texts(s.method), br_sep()))
    } else {
        Seq::empty()
    }
}

/// The trait-realization block of a label: present when the group has
/// realizations and the configuration keeps them.
pub open spec fn spec_implem_block(s: ItemStateV, c: ConfigV) -> Seq<char> {
    if s.implem.len() > 0 && c.include_implems {
        body_row(implem_bg(s.node, c), joined_with(implem_texts(s.implem), br_sep()))
    } else {
        Seq::empty()
    }
}

/// The substitution of the `file` placeholder into a URL mask: every
/// occurrence of `{file}` is replaced; any other brace makes the mask
/// invalid, and the label degrades to no link.
pub open spec fn subst_mask(mask: Seq<char>, file: Seq<char>) -> Option<Seq<char>>
    decreases mask.len(),
{
    if mask.len() == 0 {
        Some(Seq::empty())
    } else if mask[0] == '{' {
        if mask.len() >= 6 && mask.subrange(0, 6) == "{file}"@ {
            match subst_mask(mask.skip(6), file) {
                Some(rest) => Some(file + rest),
                None => None,
            }
        } else {
            None
        }
    } else if mask[0] == '}' {
        None
    } else {
        match subst_mask(mask.skip(1), file) {
            Some(rest) => Some(seq![mask[0]] + rest),
            None => None,
        }
    }
}

/// The scroll-to-text fragment of a source link: the declaration kind and
/// name, percent-encoded, behind a text-fragment anchor.
pub open spec fn spec_scrolltext(node: AbstractV) -> Seq<char> {
    match (node.kind_tag(), node.nm()) {
        (Some(t), Some(n)) => "#:~:text="@ + url_encoded(t + " "@ + n),
        _ => Seq::empty(),
    }
}

/// The `href` attribute of a node label: empty without a mask, without a
/// path, or when the mask is invalid; else the substituted URL with the
/// scroll fragment appended.
pub open spec fn spec_href(s: ItemStateV, c: ConfigV) -> Seq<char> {
    if c.src_url_mask.len() == 0 {
        Seq::empty()
    } else {
        match s.node.path_of() {
            Some(p) => {
                let file = "src/"@ + joined_segments(p) + ".rs"@;
                match subst_mask(c.src_url_mask, file) {
                    Some(url) => " href=\""@ + url + spec_scrolltext(s.node) + "\""@,
                    None => Seq::empty(),
                }
            },
            None => Seq::empty(),
        }
    }
}

/// The whole node label.
pub open spec fn spec_node_label(s: ItemStateV, c: ConfigV) -> Seq<char> {
    "<font face=\""@ + c.font_name
        + "\"><table border=\"1\" cellspacing=\"0\" cellpadding=\"10\""@ + spec_href(s, c)
        + ">"@ + spec_node_part(s.node, c) + spec_method_block(s, c) + spec_implem_block(s, c)
        + "</table></font>"@
}

/// The given parts joined with the given separator between them,
/// executed.
pub fn join_with(parts: &Vec<String>, sep: &str) -> (r: String)
    ensures
        r@ == joined_with(parts.deep_view(), sep@),
{
    let mut r: String = String::new();
    let mut i: usize = 0;
    while i < parts.len()
        invariant
            i <= parts.len(),
            r@ =~= joined_with(parts.deep_view().subrange(0, i as int), sep@),
        decreases parts.len() - i,
    {
        if i > 0 {
            r.append(sep);
        }
        r.append(parts[i].as_str());
        proof {
            let cur = parts.deep_view().subrange(0, i + 1);
            assert(cur.drop_last() =~= parts.deep_view().subrange(0, i as int));
            assert(cur.last() == parts.deep_view()[i as int]);
            assert(parts.deep_view()[i as int] == parts@[i as int]@);
            assert(r@ =~= joined_with(cur, sep@));
        }
        i += 1;
    }
    proof {
        assert(parts.deep_view().subrange(0, parts.len() as int) =~= parts.deep_view());
    }
    r
}

/// The substitution of the `file` placeholder into a URL mask, executed.
#[verifier::loop_isolation(false)]
pub fn apply_src_url_mask(mask: &str, file: &str) -> (r: Option<String>)
    ensures
        r.deep_view() == subst_mask(mask@, file@),
{
    let mlen: usize = mask.unicode_len();
    let mut acc: String = String::new();
    let mut i: usize = 0;
    proof {
        assert(mask@.skip(0) =~= mask@);
        assert(acc@ =~= Seq::<char>::empty());
        assert forall|rest: Seq<char>| Seq::<char>::empty() + rest =~= rest by {}
    }
    while i < mlen
        invariant
            i <= mlen,
            subst_mask(mask@, file@) == (match subst_mask(mask@.skip(i as int), file@) {
                Some(rest) => Some(acc@ + rest),
                None => None,
            }),
        decreases mlen - i,
    {
        let ghost pre = acc@;
        let c = mask.get_char(i);
        if c == '{' {
            if mlen >= 6 && i <= mlen - 6 {
                let piece = mask.substring_char(i, i + 6);
                if crate::text::str_eq(piece, "{file}") {
                    acc.append(file);
                    proof {
                        reveal_strlit("{file}");
                        let tail = mask@.skip(i as int);
                        assert(tail.subrange(0, 6) =~= mask@.subrange(i as int, i + 6));
                        assert(tail[0] == '{');
                        assert(tail.skip(6) =~= mask@.skip(i + 6));
                        assert(subst_mask(tail, file@) == (match subst_mask(
                            mask@.skip(i + 6),
                            file@,
                        ) {
                            Some(rest) => Some(file@ + rest),
                            None => None,
                        }));
                    }
                    i += 6;
                    continue ;
                }
            }
            proof {
                reveal_strlit("{file}");
                let tail = mask@.skip(i as int);
                assert(tail[0] == '{');
                if tail.len() >= 6 && tail.subrange(0, 6) == "{file}"@ {
                    assert(tail.subrange(0, 6) =~= mask@.subrange(i as int, i + 6));
                }
                assert(subst_mask(tail, file@) is None);
            }
            return None;
        } else if c == '}' {
            proof {
                reveal_strlit("{file}");
                let tail = mask@.skip(i as int);
                assert(tail[0] == '}');
                assert(subst_mask(tail, file@) is None);
            }
            return None;
        } else {
            let piece = mask.substring_char(i, i + 1);
            acc.append(piece);
            proof {
                let tail = mask@.skip(i as int);
                assert(tail[0] == c);
                assert(tail.skip(1) =~= mask@.skip(i + 1));
                assert(piece@ =~= seq![c]);
                assert(acc@ == pre + seq![c]);
                assert forall|rest: Seq<char>| (pre + seq![c]) + rest =~= pre + (
                seq![c] + rest) by {}
            }
            i += 1;
        }
    }
    proof {
        assert(mask@.skip(mlen as int) =~= Seq::<char>::empty());
        assert(subst_mask(Seq::<char>::empty(), file@) == Some(Seq::<char>::empty()));
        assert(acc@ + Seq::<char>::empty() =~= acc@);
    }
    Some(acc)
}

/// The escaped field entries of a struct, executed.
fn struct_field_lines_exec(fields: &Vec<Field>) -> (r: Vec<String>)
    ensures
        r.deep_view() == struct_field_lines(fields.deep_view()),
{
    let mut r: Vec<String> = Vec::new();
    let mut i: usize = 0;
    while i < fields.len()
        invariant
            i <= fields.len(),
            r.deep_view() =~= struct_field_lines(fields.deep_view().subrange(0, i as int)),
        decreases fields.len() - i,
    {
        let f = &fields[i];
        let mut line: String = String::new();
        match f.vis {
            Visibility::Public => line.append("+ "),
            _ => line.append("- "),
        }
        match &f.name {
            Some(n) => {
                line.append(n.as_str());
                line.append(": ");
            },
            None => {},
        }
        line.append(f.ty.as_str());
        proof {
            assert(line@ =~= field_line(fields.deep_view()[i as int]));
        }
        let esc = escape_html(line.as_str());
        let ghost pre = r.deep_view();
        r.push(esc);
        proof {
            let cur = fields.deep_view().subrange(0, i + 1);
            assert(cur.drop_last() =~= fields.deep_view().subrange(0, i as int));
            assert(cur.last() == fields.deep_view()[i as int]);
            assert(r.deep_view() =~= pre.push(html_escaped(field_line(
                fields.deep_view()[i as int],
            ))));
        }
        i += 1;
    }
    proof {
        assert(fields.deep_view().subrange(0, fields.len() as int) =~= fields.deep_view());
    }
    r
}

/// The escaped entries of one realization's signature list, executed.
fn real_sig_lines_exec(sigs: &Vec<Signature>) -> (r: Vec<String>)
    ensures
        r.deep_view() == real_sig_lines(sigs.deep_view()),
{
    let mut r: Vec<String> = Vec::new();
    let mut i: usize = 0;
    while i < sigs.len()
        invariant
            i <= sigs.len(),
            r.deep_view() =~= real_sig_lines(sigs.deep_view().subrange(0, i as int)),
        decreases sigs.len() - i,
    {
        let f = &sigs[i];
        let mut line: String = String::new();
        line.append(" ");
        line.append(f.name.as_str());
        line.append("(");
        let inputs = join_with(&f.inputs, ", ");
        line.append(inputs.as_str());
        line.append(")");
        match &f.ret {
            Some(t) => {
                line.append(" -> ");
                line.append(t.as_str());
            },
            None => {},
        }
        proof {
            assert(line@ =~= real_sig_line(sigs.deep_view()[i as int]));
        }
        let esc = escape_html(line.as_str());
        let ghost pre = r.deep_view();
        r.push(esc);
        proof {
            let cur = sigs.deep_view().subrange(0, i + 1);
            assert(cur.drop_last() =~= sigs.deep_view().subrange(0, i as int));
            assert(cur.last() == sigs.deep_view()[i as int]);
            assert(r.deep_view() =~= pre.push(html_escaped(real_sig_line(
                sigs.deep_view()[i as int],
            ))));
        }
        i += 1;
    }
    proof {
        assert(sigs.deep_view().subrange(0, sigs.len() as int) =~= sigs.deep_view());
    }
    r
}

impl ItemState {
    /// The scroll-to-text fragment of this group's source link.
    fn scrolltext(&self) -> (r: String)
        ensures
            r@ == spec_scrolltext(self.deep_view().node),
    {
        match (self.node.as_type(), self.node.as_name()) {
            (Some(t), Some(n)) => {
                let mut search: String = String::new();
                search.append(t);
                search.append(" ");
                search.append(n.as_str());
                let enc = url_encode(search.as_str());
                let mut r: String = String::new();
                r.append("#:~:text=");
                r.append(enc.as_str());
                proof {
                    assert(r@ =~= spec_scrolltext(self.deep_view().node));
                }
                r
            },
            _ => String::new(),
        }
    }

    /// The `href` attribute of this group's label.
    fn href_attr(&self, config: &Config) -> (r: String)
        ensures
            r@ == spec_href(self.deep_view(), config.deep_view()),
    {
        if config.src_url_mask.as_str().unicode_len() == 0 {
            assert(config.deep_view().src_url_mask.len() == 0);
            return String::new();
        }
        match self.node.path() {
            Some(p) => {
                let mut file: String = String::new();
                file.append("src/");
                let joined = p.joined();
                file.append(joined.as_str());
                file.append(".rs");
                proof {
                    assert(file@ =~= "src/"@ + joined_segments(
                        self.deep_view().node.path_of().unwrap(),
                    ) + ".rs"@);
                }
                match apply_src_url_mask(config.src_url_mask.as_str(), file.as_str()) {
                    Some(url) => {
                        let st = self.scrolltext();
                        let mut r: String = String::new();
                        r.append(" href=\"");
                        r.append(url.as_str());
                        r.append(st.as_str());
                        r.append("\"");
                        proof {
                            assert(r@ =~= " href=\""@ + url@ + st@ + "\""@);
                        }
                        r
                    },
                    None => String::new(),
                }
            },
            None => String::new(),
        }
    }

    /// The inherent-method block of this group's label.
    fn method_block(&self, config: &Config) -> (r: String)
        ensures
            r@ == spec_method_block(self.deep_view(), config.deep_view()),
    {
        if self.method.len() == 0 || !config.include_methods {
            proof {
                assert(self.method.deep_view().len() == self.method@.len());
            }
            return String::new();
        }
        let mut texts: Vec<String> = Vec::new();
        let mut i: usize = 0;
        while i < self.method.len()
            invariant
                i <= self.method.len(),
                texts.deep_view() =~= method_texts(self.method.deep_view().subrange(0, i as int)),
            decreases self.method.len() - i,
        {
            let m = &self.method[i];
            let mut line: String = String::new();
            match m.vis {
                Visibility::Public => line.append("+"),
                _ => line.append("-"),
            }
            line.append(" ");
            line.append(m.name.as_str());
            line.append("(");
            let inputs = join_with(&m.inputs, ", ");
            line.append(inputs.as_str());
            line.append(")");
            match &m.ret {
                Some(t) => {
                    line.append(" -> ");
                    line.append(t.as_str());
                },
                None => {},
            }
            proof {
                let mv = self.method.deep_view()[i as int];
                assert(line@ =~= (if mv.vis is Public {
                    "+"@
                } else {
                    "-"@
                }) + " "@ + mv.name + "("@ + joined_with(mv.inputs, ", "@) + ")"@ + (
                match mv.ret {
                    Some(r) => " -> "@ + r,
                    None => Seq::<char>::empty(),
                }));
            }
            let text = escape_html(line.as_str());
            let ghost pre = texts.deep_view();
            texts.push(text);
            proof {
                let cur = self.method.deep_view().subrange(0, i + 1);
                assert(cur.drop_last() =~= self.method.deep_view().subrange(0, i as int));
                assert(cur.last() == self.method.deep_view()[i as int]);
                assert(texts.deep_view() =~= pre.push(method_text(
                    self.method.deep_view()[i as int],
                )));
            }
            i += 1;
        }
        proof {
            assert(self.method.deep_view().subrange(0, self.method.len() as int)
                =~= self.method.deep_view());
        }
        let joined = join_with(&texts, "<br align=\"left\"/>\n");
        let bg: &str = match &self.node {
            Abstract::Struct(_) => config.struct_method_bgcolor.as_str(),
            Abstract::Trait(_) => config.trait_method_bgcolor.as_str(),
            Abstract::Enum(_) => config.enum_method_bgcolor.as_str(),
            Abstract::Empty => "white",
        };
        let r = body_row_exec(bg, joined.as_str());
        proof {
            assert(bg@ == method_bg(self.deep_view().node, config.deep_view()));
        }
        r
    }

    /// The trait-realization block of this group's label.
    fn implem_block(&self, config: &Config) -> (r: String)
        ensures
            r@ == spec_implem_block(self.deep_view(), config.deep_view()),
    {
        if self.implem.len() == 0 || !config.include_implems {
            proof {
                assert(self.implem.deep_view().len() == self.implem@.len());
            }
            return String::new();
        }
        let mut texts: Vec<String> = Vec::new();
        let mut i: usize = 0;
        while i < self.implem.len()
            invariant
                i <= self.implem.len(),
                texts.deep_view() =~= implem_texts(self.implem.deep_view().subrange(0, i as int)),
            decreases self.implem.len() - i,
        {
            let lines = real_sig_lines_exec(&self.implem[i].method);
            let text = join_with(&lines, "<br align=\"left\"/>\n");
            let ghost pre = texts.deep_view();
            texts.push(text);
            proof {
                let cur = self.implem.deep_view().subrange(0, i + 1);
                assert(cur.drop_last() =~= self.implem.deep_view().subrange(0, i as int));
                assert(cur.last() == self.implem.deep_view()[i as int]);
                assert(texts.deep_view() =~= pre.push(implem_text(
                    self.implem.deep_view()[i as int],
                )));
            }
            i += 1;
        }
        proof {
            assert(self.implem.deep_view().subrange(0, self.implem.len() as int)
                =~= self.implem.deep_view());
        }
        let joined = join_with(&texts, "<br align=\"left\"/>\n");
        let bg: &str = match &self.node {
            Abstract::Struct(_) => config.struct_implem_bgcolor.as_str(),
            Abstract::Trait(_) => config.trait_implem_bgcolor.as_str(),
            Abstract::Enum(_) => config.enum_implem_bgcolor.as_str(),
            Abstract::Empty => "white",
        };
        let r = body_row_exec(bg, joined.as_str());
        proof {
            assert(bg@ == implem_bg(self.deep_view().node, config.deep_view()));
        }
        r
    }

    /// The shape part of this group's label: header row, and the member
    /// block the configuration keeps.
    fn node_part(&self, config: &Config) -> (r: String)
        ensures
            r@ == spec_node_part(self.deep_view().node, config.deep_view()),
    {
        match &self.node {
            Abstract::Struct(s) => {
                let header = header_row_exec(
                    config.struct_header_bgcolor.as_str(),
                    s.name.as_str(),
                );
                if s.fields.len() == 0 || !config.include_fields {
                    proof {
                        assert(s.fields.deep_view().len() == s.fields@.len());
                    }
                    header
                } else {
                    let lines = struct_field_lines_exec(&s.fields);
                    let joined = join_with(&lines, "<br align=\"left\"/>\n");
                    let body = body_row_exec(
                        config.struct_fields_bgcolor.as_str(),
                        joined.as_str(),
                    );
                    let r = header.concat(body.as_str());
                    r
                }
            },
            Abstract::Enum(e) => {
                let header = header_row_exec(
                    config.enum_header_bgcolor.as_str(),
                    e.name.as_str(),
                );
                if e.variants.len() == 0 || !config.include_fields {
                    proof {
                        assert(e.variants.deep_view().len() == e.variants@.len());
                    }
                    header
                } else {
                    let mut lines: Vec<String> = Vec::new();
                    let mut i: usize = 0;
                    while i < e.variants.len()
                        invariant
                            i <= e.variants.len(),
                            lines.deep_view() =~= enum_variant_lines(
                                e.variants.deep_view().subrange(0, i as int),
                            ),
                        decreases e.variants.len() - i,
                    {
                        let v = &e.variants[i];
                        let mut line: String = String::new();
                        line.append(v.name.as_str());
                        if v.tys.len() > 0 {
                            line.append("(");
                            let tys = join_with(&v.tys, ", ");
                            line.append(tys.as_str());
                            line.append(")");
                        } else {
                            proof {
                                assert(v.tys.deep_view().len() == v.tys@.len());
                            }
                        }
                        proof {
                            assert(line@ =~= variant_line(e.variants.deep_view()[i as int]));
                        }
                        let esc = escape_html(line.as_str());
                        let ghost pre = lines.deep_view();
                        lines.push(esc);
                        proof {
                            let cur = e.variants.deep_view().subrange(0, i + 1);
                            assert(cur.drop_last() =~= e.variants.deep_view().subrange(
                                0,
                                i as int,
                            ));
                            assert(cur.last() == e.variants.deep_view()[i as int]);
                            assert(lines.deep_view() =~= pre.push(html_escaped(variant_line(
                                e.variants.deep_view()[i as int],
                            ))));
                        }
                        i += 1;
                    }
                    proof {
                        assert(e.variants.deep_view().subrange(0, e.variants.len() as int)
                            =~= e.variants.deep_view());
                    }
                    let joined = join_with(&lines, "<br align=\"left\"/>\n");
                    let body = body_row_exec(
                        config.enum_fields_bgcolor.as_str(),
                        joined.as_str(),
                    );
                    header.concat(body.as_str())
                }
            },
            Abstract::Trait(t) => {
                let header = header_row_exec(
                    config.trait_header_bgcolor.as_str(),
                    t.name.as_str(),
                );
                if !config.include_methods {
                    header
                } else {
                    let mut lines: Vec<String> = Vec::new();
                    let mut i: usize = 0;
                    while i < t.items.len()
                        invariant
                            i <= t.items.len(),
                            lines.deep_view() =~= trait_item_lines(
                                t.items.deep_view().subrange(0, i as int),
                            ),
                        decreases t.items.len() - i,
                    {
                        let it = &t.items[i];
                        let mut line: String = String::new();
                        line.append(it.name.as_str());
                        line.append("(");
                        let inputs = join_with(&it.inputs, ", ");
                        line.append(inputs.as_str());
                        line.append(") -> ");
                        line.append(it.ret.as_str());
                        proof {
                            assert(line@ =~= trait_item_line(t.items.deep_view()[i as int]));
                        }
                        let esc = escape_html(line.as_str());
                        let ghost pre = lines.deep_view();
                        lines.push(esc);
                        proof {
                            let cur = t.items.deep_view().subrange(0, i + 1);
                            assert(cur.drop_last() =~= t.items.deep_view().subrange(0, i as int));
                            assert(cur.last() == t.items.deep_view()[i as int]);
                            assert(lines.deep_view() =~= pre.push(html_escaped(trait_item_line(
                                t.items.deep_view()[i as int],
                            ))));
                        }
                        i += 1;
                    }
                    proof {
                        assert(t.items.deep_view().subrange(0, t.items.len() as int)
                            =~= t.items.deep_view());
                    }
                    let joined = join_with(&lines, "<br align=\"left\"/>\n");
                    let body = body_row_exec(
                        config.trait_method_bgcolor.as_str(),
                        joined.as_str(),
                    );
                    header.concat(body.as_str())
                }
            },
            Abstract::Empty => String::new(),
        }
    }

    /// The whole label of this group's node: the font and table wrapper,
    /// the optional source link, the shape part, and the method and
    /// realization blocks the configuration keeps.
    pub fn node_label(&self, config: &Config) -> (r: String)
        ensures
            r@ == spec_node_label(self.deep_view(), config.deep_view()),
    {
        let mut r: String = String::new();
        r.append("<font face=\"");
        r.append(config.font_name.as_str());
        r.append("\"><table border=\"1\" cellspacing=\"0\" cellpadding=\"10\"");
        let href = self.href_attr(config);
        r.append(href.as_str());
        r.append(">");
        let node_part = self.node_part(config);
        r.append(node_part.as_str());
        let mblock = self.method_block(config);
        r.append(mblock.as_str());
        let iblock = self.implem_block(config);
        r.append(iblock.as_str());
        r.append("</table></font>");
        proof {
            assert(r@ =~= spec_node_label(self.deep_view(), config.deep_view()));
        }
        r
    }
}

impl crate::graph::ListItem {
    /// The label of a node of this collection.
    pub fn node_label(&self, state: &ItemState, config: &Config) -> (r: String)
        ensures
            r@ == spec_node_label(state.deep_view(), config.deep_view()),
    {
        state.node_label(config)
    }
}

/// A label header row, executed.
fn header_row_exec(bg: &str, name: &str) -> (r: String)
    ensures
        r@ == header_row(bg@, name@),
{
    let mut r: String = String::new();
    r.append("<tr><td bgcolor=\"");
    r.append(bg);
    r.append("\"><b>");
    r.append(name);
    r.append("</b></td></tr>");
    proof {
        assert(r@ =~= header_row(bg@, name@));
    }
    r
}

/// A label body row, executed.
fn body_row_exec(bg: &str, content: &str) -> (r: String)
    ensures
        r@ == body_row(bg@, content@),
{
    let mut r: String = String::new();
    r.append("<tr><td align=\"left\" bgcolor=\"");
    r.append(bg);
    r.append("\">");
    r.append(content);
    r.append("<br align=\"left\"/></td></tr>");
    proof {
        assert(r@ =~= body_row(bg@, content@));
    }
    r
}

} // verus!
