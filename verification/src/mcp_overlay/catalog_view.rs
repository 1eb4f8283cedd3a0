//! What the catalog detail pane says of an entry: its install status and
//! the configuration items that an install asks for.

use vstd::prelude::*;

use crate::mcp_overlay::editor::CatalogConfigItem;
use crate::mcp_overlay::list_view::{join_or_dash, join_or_dash_spec, trust_tone, trust_tone_spec};
use crate::mcp_overlay::types::{CatalogInstallStatus, ServerEntry};
use crate::styled::{
    blank_line, fg, line_view, lines_view, one, one_line, plain, push_line, span, style_fg, style_plain,
    SpanStyle, SpanView, StyledSpan, Tone,
};
use crate::text::{clip, clip_seq, concat, copy_str, decimal_seq, is_blank, is_blank_str, join, join_seq, u64_to_string, views};

verus! {

/// The short label of an install status in the catalog list.
pub open spec fn install_status_list_label_spec(s: CatalogInstallStatus) -> (Seq<char>, Tone) {
    match s {
        CatalogInstallStatus::Installing => ("installing"@, Tone::Yellow),
        CatalogInstallStatus::Installed { .. } => ("installed"@, Tone::Green),
        CatalogInstallStatus::AlreadyInstalled { .. } => ("already installed"@, Tone::Green),
        _ => ("install failed"@, Tone::Red),
    }
}

/// The short label of an install status, and its colour.
pub fn install_status_list_label(status: &CatalogInstallStatus) -> (r: (&'static str, Tone))
    ensures
        r.0@ == install_status_list_label_spec(*status).0,
        r.1 == install_status_list_label_spec(*status).1,
{
    proof {
        reveal_strlit("installing");
        reveal_strlit("installed");
        reveal_strlit("already installed");
        reveal_strlit("install failed");
    }
    match status {
        CatalogInstallStatus::Installing => ("installing", Tone::Yellow),
        CatalogInstallStatus::Installed { .. } => ("installed", Tone::Green),
        CatalogInstallStatus::AlreadyInstalled { .. } => ("already installed", Tone::Green),
        _ => ("install failed", Tone::Red),
    }
}

/// A list of names joined by commas and cut to `max` characters, or
/// `fallback` when the list is empty.
pub open spec fn names_or(names: Seq<String>, fallback: Seq<char>, max: nat) -> Seq<char> {
    if names.len() == 0 { fallback } else { clip_seq(join_seq(views(names), ", "@), max) }
}

/// The full description of an install status, and its colour.
pub open spec fn install_status_detail_spec(s: CatalogInstallStatus) -> (Seq<char>, Tone) {
    match s {
        CatalogInstallStatus::Installing => ("installing"@, Tone::Yellow),
        CatalogInstallStatus::Installed { server_id, started } => (
            "installed as "@ + clip_seq(server_id@, 48) + (if started { " (started)"@ } else { Seq::empty() }),
            Tone::Green,
        ),
        CatalogInstallStatus::AlreadyInstalled { server_id } => (
            "already installed as "@ + clip_seq(server_id@, 48),
            Tone::Green,
        ),
        CatalogInstallStatus::RuntimeMissing { missing_runtimes } => (
            "missing runtime "@ + names_or(missing_runtimes@, "unknown runtime"@, 56),
            Tone::Red,
        ),
        CatalogInstallStatus::MissingEnv { missing_env_keys } => (
            "missing env "@ + names_or(missing_env_keys@, "unknown key"@, 56),
            Tone::Red,
        ),
        CatalogInstallStatus::Failed { message } => ("failed "@ + clip_seq(message@, 60), Tone::Red),
    }
}

fn names_or_text(names: &Vec<String>, fallback: &str, max: usize) -> (r: String)
    ensures
        r@ == names_or(names@, fallback@, max as nat),
{
    if names.len() == 0 {
        copy_str(fallback)
    } else {
        let joined = join(names.as_slice(), ", ");
        clip(joined.as_str(), max)
    }
}

/// The full description of an install status, and its colour.
pub fn install_status_detail(status: &CatalogInstallStatus) -> (r: (String, Tone))
    ensures
        r.0@ == install_status_detail_spec(*status).0,
        r.1 == install_status_detail_spec(*status).1,
{
    proof {
        reveal_strlit("installing");
    }
    match status {
        CatalogInstallStatus::Installing => (copy_str("installing"), Tone::Yellow),
        CatalogInstallStatus::Installed { server_id, started } => {
            let head = concat("installed as ", clip(server_id.as_str(), 48).as_str());
            if *started {
                (concat(head.as_str(), " (started)"), Tone::Green)
            } else {
                (head, Tone::Green)
            }
        },
        CatalogInstallStatus::AlreadyInstalled { server_id } => {
            (concat("already installed as ", clip(server_id.as_str(), 48).as_str()), Tone::Green)
        },
        CatalogInstallStatus::RuntimeMissing { missing_runtimes } => {
            let names = names_or_text(missing_runtimes, "unknown runtime", 56);
            (concat("missing runtime ", names.as_str()), Tone::Red)
        },
        CatalogInstallStatus::MissingEnv { missing_env_keys } => {
            let names = names_or_text(missing_env_keys, "unknown key", 56);
            (concat("missing env ", names.as_str()), Tone::Red)
        },
        CatalogInstallStatus::Failed { message } => {
            (concat("failed ", clip(message.as_str(), 60).as_str()), Tone::Red)
        },
    }
}

/// What a configuration item's row says of it: its kind, whether it is
/// required, whether it is secret, and its default (hidden for a secret).
pub open spec fn config_item_meta_spec(item: CatalogConfigItem) -> Seq<char> {
    item.kind@ + " "@ + (if item.required { "required"@ } else { "optional"@ })
        + (if item.secret { " secret"@ } else { Seq::empty() })
        + match item.default {
            Some(d) => if d@.len() == 0 {
                Seq::<char>::empty()
            } else if item.secret {
                " default:set"@
            } else {
                " default:"@ + clip_seq(d@, 20)
            },
            None => Seq::<char>::empty(),
        }
}

/// The kind, requirement, secrecy and default of a configuration item.
pub fn config_item_meta(item: &CatalogConfigItem) -> (r: String)
    ensures
        r@ == config_item_meta_spec(*item),
{
    proof {
        reveal_strlit(" ");
    }
    let head = concat(item.kind.as_str(), " ");
    let mut meta = concat(head.as_str(), if item.required { "required" } else { "optional" });
    if item.secret {
        meta = concat(meta.as_str(), " secret");
    }
    match &item.default {
        Some(d) => {
            if d.as_str().unicode_len() == 0 {
            } else if item.secret {
                meta = concat(meta.as_str(), " default:set");
            } else {
                let with_label = concat(meta.as_str(), " default:");
                meta = concat(with_label.as_str(), clip(d.as_str(), 20).as_str());
            }
        },
        None => {},
    }
    meta
}

/// The description part of a configuration item's row: empty for a blank
/// description, else ` - ` and the description cut to 42 characters.
pub open spec fn config_item_description_spec(item: CatalogConfigItem) -> Seq<char> {
    if is_blank(item.description@) { Seq::empty() } else { " - "@ + clip_seq(item.description@, 42) }
}

/// The description part of a configuration item's row.
pub fn config_item_description(item: &CatalogConfigItem) -> (r: String)
    ensures
        r@ == config_item_description_spec(*item),
{
    if is_blank_str(item.description.as_str()) {
        String::new()
    } else {
        concat(" - ", clip(item.description.as_str(), 42).as_str())
    }
}

/// How many of the items are required.
pub open spec fn required_count_spec(items: Seq<CatalogConfigItem>) -> nat
    decreases items.len(),
{
    if items.len() == 0 {
        0
    } else {
        required_count_spec(items.drop_last()) + (if items.last().required { 1nat } else { 0nat })
    }
}

/// How many of the items are required.
pub fn required_count(items: &[CatalogConfigItem]) -> (n: usize)
    ensures
        n == required_count_spec(items@),
{
    let mut n: usize = 0;
    let mut i: usize = 0;
    while i < items.len()
        invariant
            i <= items.len(),
            n == required_count_spec(items@.subrange(0, i as int)),
            n <= i,
        decreases items.len() - i,
    {
        assert(items@.subrange(0, i + 1).drop_last() =~= items@.subrange(0, i as int));
        if items[i].required {
            n = n + 1;
        }
        i = i + 1;
    }
    assert(items@.subrange(0, items@.len() as int) =~= items@);
    n
}

/// The heading of the configuration list: ` N item` or ` N items`, then
/// ` required:K` in yellow when some are required, grey when none are.
pub open spec fn config_heading_spec(items: Seq<CatalogConfigItem>) -> (Seq<char>, Seq<char>, Tone) {
    (
        " "@ + decimal_seq(items.len()) + " item"@ + (if items.len() == 1 { Seq::empty() } else { "s"@ }),
        " required:"@ + decimal_seq(required_count_spec(items)),
        if required_count_spec(items) == 0 { Tone::DarkGray } else { Tone::Yellow },
    )
}

/// The heading of the configuration list.
pub fn config_heading(items: &[CatalogConfigItem]) -> (r: (String, String, Tone))
    ensures
        r.0@ == config_heading_spec(items@).0,
        r.1@ == config_heading_spec(items@).1,
        r.2 == config_heading_spec(items@).2,
{
    let n = items.len();
    let count = u64_to_string(n as u64);
    let head = concat(concat(" ", count.as_str()).as_str(), " item");
    let items_text = if n == 1 { head } else { concat(head.as_str(), "s") };
    let k = required_count(items);
    let required = concat(" required:", u64_to_string(k as u64).as_str());
    proof {
        reveal_strlit("");
    }
    (items_text, required, if k == 0 { Tone::DarkGray } else { Tone::Yellow })
}

/// How a catalog entry is installed, as far as the detail pane tells it: a
/// command with its arguments, or a remote URL with the names of the HTTP
/// headers it sends.
#[derive(Debug, PartialEq, Eq)]
pub enum InstallSpecSummary {
    Stdio { command: String, args: Vec<String> },
    Sse { url: String, header_keys: Vec<String> },
    StreamableHttp { url: String, header_keys: Vec<String> },
}

/// A runtime that a catalog entry needs.
#[derive(Debug, PartialEq, Eq)]
pub struct CatalogRequirement {
    pub kind: String,
    pub min_version: Option<String>,
    pub install_hint: Option<String>,
}

/// A labelled line: a grey label, then the value in plain text.
pub open spec fn labelled(label: Seq<char>, value: Seq<char>) -> Seq<SpanView> {
    seq![SpanView { text: label, style: fg(Tone::DarkGray) }, SpanView { text: value, style: plain() }]
}

fn labelled_line(label: &str, value: String) -> (r: Vec<StyledSpan>)
    ensures
        line_view(r@) == labelled(label@, value@),
{
    let mut v: Vec<StyledSpan> = Vec::new();
    v.push(span(copy_str(label), style_fg(Tone::DarkGray)));
    v.push(span(value, style_plain()));
    assert(line_view(v@) =~= labelled(label@, value@));
    v
}

/// The install lines of the detail pane: the transport and what it runs
/// or reaches, then the header names of a remote server when it sends
/// any; `unknown` when the install spec could not be read.
pub open spec fn install_lines_spec(spec: Option<InstallSpecSummary>) -> Seq<Seq<SpanView>> {
    match spec {
        Some(InstallSpecSummary::Stdio { command, args }) => seq![labelled(
            "install: "@,
            "stdio "@ + clip_seq(command@ + (if args.len() == 0 { Seq::empty() } else { " "@ + join_seq(views(args@), " "@) }), 76),
        )],
        Some(InstallSpecSummary::Sse { url, header_keys }) => {
            let first = seq![labelled("install: "@, "sse "@ + clip_seq(url@, 76))];
            if header_keys.len() == 0 { first } else { first.push(labelled("headers: "@, join_seq(views(header_keys@), ", "@))) }
        },
        Some(InstallSpecSummary::StreamableHttp { url, header_keys }) => {
            let first = seq![labelled("install: "@, "streamable_http "@ + clip_seq(url@, 68))];
            if header_keys.len() == 0 { first } else { first.push(labelled("headers: "@, join_seq(views(header_keys@), ", "@))) }
        },
        None => seq![labelled("install: "@, "unknown"@)],
    }
}

/// The install lines of the detail pane.
pub fn install_lines(spec: &Option<InstallSpecSummary>) -> (r: Vec<Vec<StyledSpan>>)
    ensures
        lines_view(r@) == install_lines_spec(*spec),
{
    let mut lines: Vec<Vec<StyledSpan>> = Vec::new();
    assert(lines_view(lines@) =~= Seq::<Seq<SpanView>>::empty());
    match spec {
        Some(InstallSpecSummary::Stdio { command, args }) => {
            let command_line = if args.len() == 0 {
                let c = copy_str(command.as_str());
                assert(c@ =~= command@ + Seq::<char>::empty());
                c
            } else {
                let joined = join(args.as_slice(), " ");
                let c = concat(concat(command.as_str(), " ").as_str(), joined.as_str());
                assert(c@ =~= command@ + (" "@ + joined@));
                c
            };
            push_line(&mut lines, labelled_line("install: ", concat("stdio ", clip(command_line.as_str(), 76).as_str())));
        },
        Some(InstallSpecSummary::Sse { url, header_keys }) => {
            push_line(&mut lines, labelled_line("install: ", concat("sse ", clip(url.as_str(), 76).as_str())));
            if header_keys.len() > 0 {
                push_line(&mut lines, labelled_line("headers: ", join(header_keys.as_slice(), ", ")));
            }
        },
        Some(InstallSpecSummary::StreamableHttp { url, header_keys }) => {
            push_line(&mut lines, labelled_line("install: ", concat("streamable_http ", clip(url.as_str(), 68).as_str())));
            if header_keys.len() > 0 {
                push_line(&mut lines, labelled_line("headers: ", join(header_keys.as_slice(), ", ")));
            }
        },
        None => {
            push_line(&mut lines, labelled_line("install: ", copy_str("unknown")));
        },
    }
    assert(lines_view(lines@) =~~= install_lines_spec(*spec));
    lines
}

/// What a requirement's line says: its kind, the least version when
/// given, and the install hint cut to 52 characters when given.
pub open spec fn requirement_label_spec(r: CatalogRequirement) -> Seq<char> {
    r.kind@
        + match r.min_version { Some(v) => " >="@ + v@, None => Seq::empty() }
        + match r.install_hint { Some(h) => " - "@ + clip_seq(h@, 52), None => Seq::empty() }
}

/// What a requirement's line says.
pub fn requirement_label(r: &CatalogRequirement) -> (s: String)
    ensures
        s@ == requirement_label_spec(*r),
{
    let mut label = r.kind.clone();
    match &r.min_version {
        Some(v) => {
            label = concat(concat(label.as_str(), " >=").as_str(), v.as_str());
        },
        None => {},
    }
    match &r.install_hint {
        Some(h) => {
            label = concat(concat(label.as_str(), " - ").as_str(), clip(h.as_str(), 52).as_str());
        },
        None => {},
    }
    label
}

/// The requirement lines of the detail pane: `requirements: none`, or a
/// heading and the first four requirements, indented.
pub open spec fn requirement_lines_spec(reqs: Seq<CatalogRequirement>) -> Seq<Seq<SpanView>> {
    if reqs.len() == 0 {
        seq![labelled("requirements: "@, "none"@)]
    } else {
        seq![one("requirements:"@, SpanStyle { fg: Some(Tone::DarkGray), bold: true, dim: false })]
            + Seq::new(
            if reqs.len() < 4 { reqs.len() } else { 4 },
            |i: int| one("  "@ + requirement_label_spec(reqs[i]), plain()),
        )
    }
}

/// The requirement lines of the detail pane.
pub fn requirement_lines(reqs: &[CatalogRequirement]) -> (r: Vec<Vec<StyledSpan>>)
    ensures
        lines_view(r@) == requirement_lines_spec(reqs@),
{
    let mut lines: Vec<Vec<StyledSpan>> = Vec::new();
    if reqs.len() == 0 {
        push_line(&mut lines, labelled_line("requirements: ", copy_str("none")));
        assert(lines_view(lines@) =~= requirement_lines_spec(reqs@));
        return lines;
    }
    push_line(&mut lines, one_line(copy_str("requirements:"), SpanStyle { fg: Some(Tone::DarkGray), bold: true, dim: false }));
    let n: usize = if reqs.len() < 4 { reqs.len() } else { 4 };
    let ghost head = seq![one("requirements:"@, SpanStyle { fg: Some(Tone::DarkGray), bold: true, dim: false })];
    let mut i: usize = 0;
    while i < n
        invariant
            n <= reqs.len(),
            n == (if reqs.len() < 4 { reqs.len() } else { 4 }),
            i <= n,
            lines_view(lines@) == head + Seq::new(i as nat, |k: int| one("  "@ + requirement_label_spec(reqs@[k]), plain())),
        decreases n - i,
    {
        let label = requirement_label(&reqs[i]);
        push_line(&mut lines, one_line(concat("  ", label.as_str()), style_plain()));
        i = i + 1;
        assert(lines_view(lines@) =~= head + Seq::new(i as nat, |k: int| one("  "@ + requirement_label_spec(reqs@[k]), plain())));
    }
    lines
}

/// The heading lines of the detail pane: name, description, identity,
/// trust and version, then author, home page, and categories and tags when
/// known.
pub open spec fn detail_head_spec(e: ServerEntry) -> Seq<Seq<SpanView>> {
    let base = seq![
        one(e.display_name@, SpanStyle { fg: Some(Tone::Yellow), bold: true, dim: false }),
        one(clip_seq(e.description@, 96), plain()),
        Seq::<SpanView>::empty(),
        seq![
            SpanView { text: "id: "@, style: fg(Tone::DarkGray) },
            SpanView { text: e.id@, style: plain() },
            SpanView { text: "  source: "@, style: fg(Tone::DarkGray) },
            SpanView { text: e.source@, style: plain() },
        ],
        seq![
            SpanView { text: "trust: "@, style: fg(Tone::DarkGray) },
            SpanView { text: e.trust@, style: fg(trust_tone_spec(e.trust@)) },
            SpanView { text: "  version: "@, style: fg(Tone::DarkGray) },
            SpanView { text: match e.version { Some(v) => v@, None => "unknown"@ }, style: plain() },
        ],
    ];
    let with_author = match e.author {
        Some(a) => base.push(labelled("author: "@, a@)),
        None => base,
    };
    let with_home = match e.homepage {
        Some(h) => with_author.push(labelled("home: "@, clip_seq(h@, 72))),
        None => with_author,
    };
    if e.categories.len() > 0 || e.tags.len() > 0 {
        with_home.push(seq![
            SpanView { text: "categories: "@, style: fg(Tone::DarkGray) },
            SpanView { text: join_or_dash_spec(e.categories@), style: plain() },
            SpanView { text: "  tags: "@, style: fg(Tone::DarkGray) },
            SpanView { text: join_or_dash_spec(e.tags@), style: plain() },
        ])
    } else {
        with_home
    }
}

/// The heading lines of the detail pane.
pub fn detail_head_lines(e: &ServerEntry) -> (r: Vec<Vec<StyledSpan>>)
    ensures
        lines_view(r@) == detail_head_spec(*e),
{
    let ghost spec = detail_head_spec(*e);
    let mut lines: Vec<Vec<StyledSpan>> = Vec::new();
    push_line(&mut lines, one_line(e.display_name.clone(), SpanStyle { fg: Some(Tone::Yellow), bold: true, dim: false }));
    push_line(&mut lines, one_line(clip(e.description.as_str(), 96), style_plain()));
    push_line(&mut lines, blank_line());
    let mut ident: Vec<StyledSpan> = Vec::new();
    ident.push(span(copy_str("id: "), style_fg(Tone::DarkGray)));
    ident.push(span(e.id.clone(), style_plain()));
    ident.push(span(copy_str("  source: "), style_fg(Tone::DarkGray)));
    ident.push(span(e.source.clone(), style_plain()));
    assert(line_view(ident@) =~= spec[3]);
    push_line(&mut lines, ident);
    let mut trust: Vec<StyledSpan> = Vec::new();
    trust.push(span(copy_str("trust: "), style_fg(Tone::DarkGray)));
    trust.push(span(e.trust.clone(), style_fg(trust_tone(e.trust.as_str()))));
    trust.push(span(copy_str("  version: "), style_fg(Tone::DarkGray)));
    trust.push(span(match &e.version { Some(v) => v.clone(), None => copy_str("unknown") }, style_plain()));
    assert(line_view(trust@) =~= spec[4]);
    push_line(&mut lines, trust);
    match &e.author {
        Some(a) => push_line(&mut lines, labelled_line("author: ", a.clone())),
        None => {},
    }
    match &e.homepage {
        Some(h) => push_line(&mut lines, labelled_line("home: ", clip(h.as_str(), 72))),
        None => {},
    }
    if e.categories.len() > 0 || e.tags.len() > 0 {
        let mut cats: Vec<StyledSpan> = Vec::new();
        cats.push(span(copy_str("categories: "), style_fg(Tone::DarkGray)));
        cats.push(span(join_or_dash(e.categories.as_slice()), style_plain()));
        cats.push(span(copy_str("  tags: "), style_fg(Tone::DarkGray)));
        cats.push(span(join_or_dash(e.tags.as_slice()), style_plain()));
        push_line(&mut lines, cats);
    }
    assert(lines_view(lines@) =~~= detail_head_spec(*e));
    lines
}

} // verus!
