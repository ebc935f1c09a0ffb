//! What is shown of the tunnels.
use crate::cloudflared::{CloudflaredTunnel, CloudflaredTunnelView};
use crate::dialog::{
    bold, cyan, dimmed, green, lemma_run_together, link, plain, put_span, readable, run_together,
    Choice, ChoiceView, Notice, NoticeView, Request, RequestView, Span, SpanView, Style,
};
use crate::error::{Error, ErrorView};
use crate::metadata::{
    is_listing, lemma_listing_exists, listing, Metadata, TunnelMeta, TunnelMetaView,
};
use crate::text::{cat2, cat3, decimal, decimal_text, fresh, put};
use vstd::prelude::*;

verus! {

/// Whether cloudflared lists the tunnel `uuid` with a connection.
pub open spec fn is_online(listed: Seq<CloudflaredTunnelView>, uuid: Seq<char>) -> bool {
    exists|i: int|
        0 <= i < listed.len() && (#[trigger] listed[i]).id == uuid && listed[i].connections > 0
}

/// Whether cloudflared lists a tunnel with the name `name`.
pub open spec fn is_listed(listed: Seq<CloudflaredTunnelView>, name: Seq<char>) -> bool {
    exists|i: int| 0 <= i < listed.len() && (#[trigger] listed[i]).name == name
}

/// The word for whether a tunnel is online.
pub open spec fn state_word(online: bool) -> SpanView {
    if online {
        green("online"@)
    } else {
        dimmed("offline"@)
    }
}

/// Whether cloudflared lists the tunnel `uuid` with a connection.
pub fn online(listed: &Vec<CloudflaredTunnel>, uuid: &String) -> (r: bool)
    ensures
        r == is_online(listed.deep_view(), uuid@),
{
    let mut i: usize = 0;
    while i < listed.len()
        invariant
            i <= listed.len(),
            forall|j: int|
                0 <= j < i ==> !((#[trigger] listed.deep_view()[j]).id == uuid@
                    && listed.deep_view()[j].connections > 0),
        decreases listed.len() - i,
    {
        assert(listed.deep_view()[i as int] == listed@[i as int]@);
        if listed[i].id == *uuid && listed[i].connections > 0 {
            return true;
        }
        i += 1;
    }
    false
}

/// Whether cloudflared lists a tunnel with the name `name`.
pub fn name_listed(listed: &Vec<CloudflaredTunnel>, name: &String) -> (r: bool)
    ensures
        r == is_listed(listed.deep_view(), name@),
{
    let mut i: usize = 0;
    while i < listed.len()
        invariant
            i <= listed.len(),
            forall|j: int| 0 <= j < i ==> (#[trigger] listed.deep_view()[j]).name != name@,
        decreases listed.len() - i,
    {
        assert(listed.deep_view()[i as int] == listed@[i as int]@);
        if listed[i].name == *name {
            return true;
        }
        i += 1;
    }
    false
}

/// Writes the word for whether a tunnel is online.
fn write_state(line: &mut Vec<Span>, online: bool)
    ensures
        final(line).deep_view() == old(line).deep_view().push(state_word(online)),
{
    if online {
        put_span(line, Style::Green, "online");
    } else {
        put_span(line, Style::Dimmed, "offline");
    }
}

/// The line for a tunnel that cftun manages.
pub open spec fn managed_line(name: Seq<char>, tunnel: TunnelMetaView, online: bool) -> NoticeView {
    NoticeView::Line(
        Seq::empty().push(plain("  "@)).push(cyan("•"@)).push(plain(" "@)).push(bold(name)).push(
            plain(" → "@),
        ).push(green("https://"@ + tunnel.hostname)).push(plain(" ("@)).push(
            dimmed(tunnel.service),
        ).push(plain(") ["@)).push(state_word(online)).push(plain("]"@)),
    )
}

/// The line for a tunnel that cftun does not manage.
pub open spec fn other_line(tunnel: CloudflaredTunnelView) -> NoticeView {
    NoticeView::Line(
        Seq::empty().push(plain("  "@)).push(cyan("•"@)).push(plain(" "@)).push(
            bold(tunnel.name),
        ).push(plain(" ("@)).push(dimmed(tunnel.id)).push(plain(") ["@)).push(
            state_word(tunnel.connections > 0),
        ).push(plain("]"@)),
    )
}

/// The lines for the tunnels `names` of `managed`.
pub open spec fn managed_lines(
    listed: Seq<CloudflaredTunnelView>,
    managed: Map<Seq<char>, TunnelMetaView>,
    names: Seq<Seq<char>>,
) -> Seq<NoticeView> {
    names.map_values(
        |name: Seq<char>|
            managed_line(name, managed[name], is_online(listed, managed[name].uuid)),
    )
}

/// The tunnels of `listed` that are not managed.
pub open spec fn unmanaged(
    listed: Seq<CloudflaredTunnelView>,
    managed: Map<Seq<char>, TunnelMetaView>,
) -> Seq<CloudflaredTunnelView>
    decreases listed.len(),
{
    if listed.len() == 0 {
        Seq::empty()
    } else {
        let front = unmanaged(listed.drop_last(), managed);
        if managed.contains_key(listed.last().name) {
            front
        } else {
            front.push(listed.last())
        }
    }
}

/// The lines for the tunnels `others`, which cftun does not manage.
pub open spec fn other_lines(others: Seq<CloudflaredTunnelView>) -> Seq<NoticeView> {
    others.map_values(|t: CloudflaredTunnelView| other_line(t))
}

/// An empty line.
pub open spec fn blank() -> NoticeView {
    NoticeView::Line(Seq::empty())
}

/// A heading of the list.
pub open spec fn heading(text: Seq<char>) -> NoticeView {
    NoticeView::Line(Seq::empty().push(cyan("●"@)).push(plain(text)))
}

/// A line that recommends a command.
pub open spec fn hint(text: Seq<char>, command: Seq<char>) -> NoticeView {
    NoticeView::Line(Seq::empty().push(plain(text)).push(cyan(command)))
}

/// The first part of the list: the tunnels that cftun manages.
pub open spec fn managed_part(
    listed: Seq<CloudflaredTunnelView>,
    managed: Map<Seq<char>, TunnelMetaView>,
) -> Seq<NoticeView> {
    let top = Seq::empty().push(heading(" Tunnels managed by cftun:"@));
    let names = listing(managed);
    let body = if names.len() == 0 {
        Seq::empty().push(NoticeView::Line(Seq::empty().push(plain("  (none)"@))))
    } else {
        managed_lines(listed, managed, names)
    };
    (top + body).push(blank())
}

/// The second part of the list: the other tunnels, where there are any.
pub open spec fn other_part(others: Seq<CloudflaredTunnelView>) -> Seq<NoticeView> {
    if others.len() == 0 {
        Seq::empty()
    } else {
        (Seq::empty().push(heading(" Other cloudflared tunnels:"@)) + other_lines(others)).push(
            blank(),
        )
    }
}

/// The end of the list: what to do next.
pub open spec fn hint_part(others: Seq<CloudflaredTunnelView>) -> Seq<NoticeView> {
    let create = Seq::empty().push(hint("  Create one with: "@, "cftun create"@));
    if others.len() == 0 {
        create
    } else {
        create.push(
            hint(
                "  Or adopt an existing tunnel with: "@,
                "cftun import <name> <hostname> <port/url>"@,
            ),
        )
    }
}

/// The list of the tunnels that are managed and of the others.
pub open spec fn list_report_of(
    listed: Seq<CloudflaredTunnelView>,
    managed: Map<Seq<char>, TunnelMetaView>,
) -> Seq<NoticeView> {
    let others = unmanaged(listed, managed);
    managed_part(listed, managed) + other_part(others) + hint_part(others)
}

/// The line for a tunnel that cftun manages.
fn managed_notice(name: &str, tunnel: &TunnelMeta, online: bool) -> (r: Notice)
    ensures
        r@ == managed_line(name@, tunnel@, online),
{
    let mut line = fresh();
    put_span(&mut line, Style::Plain, "  ");
    put_span(&mut line, Style::Cyan, "•");
    put_span(&mut line, Style::Plain, " ");
    put_span(&mut line, Style::Bold, name);
    put_span(&mut line, Style::Plain, " → ");
    put_span(&mut line, Style::Green, cat2("https://", tunnel.hostname.as_str()).as_str());
    put_span(&mut line, Style::Plain, " (");
    put_span(&mut line, Style::Dimmed, tunnel.service.as_str());
    put_span(&mut line, Style::Plain, ") [");
    write_state(&mut line, online);
    put_span(&mut line, Style::Plain, "]");
    Notice::Line(line)
}

/// The line for a tunnel that cftun does not manage.
fn other_notice(tunnel: &CloudflaredTunnel) -> (r: Notice)
    ensures
        r@ == other_line(tunnel@),
{
    let mut line = fresh();
    put_span(&mut line, Style::Plain, "  ");
    put_span(&mut line, Style::Cyan, "•");
    put_span(&mut line, Style::Plain, " ");
    put_span(&mut line, Style::Bold, tunnel.name.as_str());
    put_span(&mut line, Style::Plain, " (");
    put_span(&mut line, Style::Dimmed, tunnel.id.as_str());
    put_span(&mut line, Style::Plain, ") [");
    write_state(&mut line, tunnel.connections > 0);
    put_span(&mut line, Style::Plain, "]");
    Notice::Line(line)
}

/// A heading of the list.
fn heading_notice(text: &str) -> (r: Notice)
    ensures
        r@ == heading(text@),
{
    let mut line = fresh();
    put_span(&mut line, Style::Cyan, "●");
    put_span(&mut line, Style::Plain, text);
    Notice::Line(line)
}

/// A line that recommends a command.
fn hint_notice(text: &str, command: &str) -> (r: Notice)
    ensures
        r@ == hint(text@, command@),
{
    let mut line = fresh();
    put_span(&mut line, Style::Plain, text);
    put_span(&mut line, Style::Cyan, command);
    Notice::Line(line)
}

/// An empty line.
pub fn blank_notice() -> (r: Notice)
    ensures
        r@ == blank(),
{
    Notice::Line(fresh())
}

/// The list of the tunnels that are managed and of the others.
pub fn list_report(listed: &Vec<CloudflaredTunnel>, managed: &Metadata) -> (r: Vec<Notice>)
    ensures
        r.deep_view() == list_report_of(listed.deep_view(), managed@),
{
    let ghost cf = listed.deep_view();
    let ghost m = managed@;
    let mut out = fresh();
    put(&mut out, heading_notice(" Tunnels managed by cftun:"));
    let ghost top = out.deep_view();
    let names = managed.names();
    let ghost all = names.deep_view();
    if names.len() == 0 {
        let mut line = fresh();
        put_span(&mut line, Style::Plain, "  (none)");
        put(&mut out, Notice::Line(line));
        assert(out.deep_view() =~= top + Seq::empty().push(
            NoticeView::Line(Seq::empty().push(plain("  (none)"@))),
        ));
    } else {
        let mut i: usize = 0;
        assert(out.deep_view() =~= top + managed_lines(cf, m, all.take(0)));
        while i < names.len()
            invariant
                i <= names.len(),
                all == names.deep_view(),
                is_listing(m, all),
                cf == listed.deep_view(),
                m == managed@,
                out.deep_view() == top + managed_lines(cf, m, all.take(i as int)),
            decreases names.len() - i,
        {
            assert(all[i as int] == names@[i as int]@);
            assert(all.contains(all[i as int]));
            assert(m.contains_key(all[i as int]));
            if let Some(tunnel) = managed.get(names[i].as_str()) {
                put(
                    &mut out,
                    managed_notice(names[i].as_str(), tunnel, online(listed, &tunnel.uuid)),
                );
            }
            assert(managed_lines(cf, m, all.take(i + 1)) =~= managed_lines(
                cf,
                m,
                all.take(i as int),
            ).push(
                managed_line(
                    all[i as int],
                    m[all[i as int]],
                    is_online(cf, m[all[i as int]].uuid),
                ),
            ));
            assert(out.deep_view() =~= top + managed_lines(cf, m, all.take(i + 1)));
            i += 1;
        }
        assert(all.take(all.len() as int) =~= all);
    }
    put(&mut out, blank_notice());
    let ghost first = out.deep_view();
    assert(first =~= managed_part(cf, m));
    let ghost others = unmanaged(cf, m);
    let mut rest = fresh();
    let mut i: usize = 0;
    assert(rest.deep_view() =~= other_lines(unmanaged(cf.take(0), m)));
    while i < listed.len()
        invariant
            i <= listed.len(),
            cf == listed.deep_view(),
            m == managed@,
            rest.deep_view() == other_lines(unmanaged(cf.take(i as int), m)),
        decreases listed.len() - i,
    {
        let ghost before = unmanaged(cf.take(i as int), m);
        assert(cf.take(i + 1).drop_last() =~= cf.take(i as int));
        assert(cf.take(i + 1).last() == listed@[i as int]@);
        if !managed.contains_key(listed[i].name.as_str()) {
            put(&mut rest, other_notice(&listed[i]));
            assert(other_lines(before.push(listed@[i as int]@)) =~= other_lines(before).push(
                other_line(listed@[i as int]@),
            ));
        }
        i += 1;
    }
    assert(cf.take(cf.len() as int) =~= cf);
    let found = rest.len() > 0;
    assert(rest.deep_view().len() == others.len());
    if found {
        put(&mut out, heading_notice(" Other cloudflared tunnels:"));
        append_notices(&mut out, rest);
        put(&mut out, blank_notice());
    }
    assert(out.deep_view() =~= first + other_part(others));
    put(&mut out, hint_notice("  Create one with: ", "cftun create"));
    if found {
        put(
            &mut out,
            hint_notice(
                "  Or adopt an existing tunnel with: ",
                "cftun import <name> <hostname> <port/url>",
            ),
        );
    }
    assert(out.deep_view() =~= list_report_of(cf, m));
    out
}

/// Puts `more` at the end of `notices`.
fn append_notices(notices: &mut Vec<Notice>, more: Vec<Notice>)
    ensures
        final(notices).deep_view() == old(notices).deep_view() + more.deep_view(),
{
    let mut more = more;
    let ghost all = more.deep_view();
    notices.append(&mut more);
    assert(notices.deep_view() =~= old(notices).deep_view() + all);
}

/// How many of `listed` have a connection.
pub open spec fn online_count(listed: Seq<CloudflaredTunnelView>) -> nat
    decreases listed.len(),
{
    if listed.len() == 0 {
        0
    } else {
        online_count(listed.drop_last()) + (if listed.last().connections > 0 {
            1nat
        } else {
            0nat
        })
    }
}

/// A line of the summary.
pub open spec fn figure(label: Seq<char>, n: nat) -> NoticeView {
    NoticeView::Line(Seq::empty().push(plain("  "@)).push(dimmed(label)).push(plain(decimal(n))))
}

/// The summary at the top of the status.
pub open spec fn summary_part(
    listed: Seq<CloudflaredTunnelView>,
    managed: Map<Seq<char>, TunnelMetaView>,
) -> Seq<NoticeView> {
    Seq::empty().push(
        NoticeView::Line(Seq::empty().push(bold("Cloudflared tunnel status"@))),
    ).push(figure("Total tunnels: "@, listed.len())).push(
        figure("Managed by cftun: "@, managed.dom().len()),
    ).push(figure("Currently online: "@, online_count(listed))).push(blank())
}

/// The line with the state, name and id of a tunnel.
pub open spec fn tunnel_line(tunnel: CloudflaredTunnelView) -> NoticeView {
    NoticeView::Line(
        Seq::empty().push(plain("  "@)).push(
            if tunnel.connections > 0 {
                SpanView { style: Style::GreenBold, text: "online"@ }
            } else {
                dimmed("offline"@)
            },
        ).push(plain(" "@)).push(bold(tunnel.name)).push(plain(" - "@)).push(dimmed(tunnel.id)),
    )
}

/// The line that says what a managed tunnel forwards to.
pub open spec fn target_line(tunnel: TunnelMetaView) -> NoticeView {
    NoticeView::Line(
        Seq::empty().push(plain("    "@)).push(green("https://"@ + tunnel.hostname)).push(
            plain(" → "@),
        ).push(dimmed(tunnel.service)),
    )
}

/// The line that says when a tunnel was created and how it is connected.
pub open spec fn detail_line(tunnel: CloudflaredTunnelView) -> NoticeView {
    NoticeView::Line(
        Seq::empty().push(plain("    Created: "@)).push(dimmed(tunnel.created_at)).push(
            plain(" | Connections: "@ + decimal(tunnel.connections)),
        ),
    )
}

/// What the status says of each of `listed`.
pub open spec fn tunnel_part(
    listed: Seq<CloudflaredTunnelView>,
    managed: Map<Seq<char>, TunnelMetaView>,
) -> Seq<NoticeView>
    decreases listed.len(),
{
    if listed.len() == 0 {
        Seq::empty()
    } else {
        let t = listed.last();
        let head = tunnel_part(listed.drop_last(), managed).push(tunnel_line(t));
        if managed.contains_key(t.name) {
            head.push(target_line(managed[t.name])).push(detail_line(t))
        } else {
            head.push(detail_line(t))
        }
    }
}

/// The status of the tunnels that cloudflared lists.
pub open spec fn status_report_of(
    listed: Seq<CloudflaredTunnelView>,
    managed: Map<Seq<char>, TunnelMetaView>,
) -> Seq<NoticeView> {
    summary_part(listed, managed) + tunnel_part(listed, managed)
}

/// A line of the summary.
fn figure_notice(label: &str, n: usize) -> (r: Notice)
    ensures
        r@ == figure(label@, n as nat),
{
    let mut line = fresh();
    put_span(&mut line, Style::Plain, "  ");
    put_span(&mut line, Style::Dimmed, label);
    put_span(&mut line, Style::Plain, decimal_text(n).as_str());
    Notice::Line(line)
}

/// How many of `listed` have a connection.
fn count_online(listed: &Vec<CloudflaredTunnel>) -> (r: usize)
    ensures
        r == online_count(listed.deep_view()),
{
    let ghost cf = listed.deep_view();
    let mut n: usize = 0;
    let mut i: usize = 0;
    while i < listed.len()
        invariant
            i <= listed.len(),
            n <= i,
            cf == listed.deep_view(),
            n == online_count(cf.take(i as int)),
        decreases listed.len() - i,
    {
        assert(cf.take(i + 1).drop_last() =~= cf.take(i as int));
        assert(cf.take(i + 1).last() == listed@[i as int]@);
        if listed[i].connections > 0 {
            n += 1;
        }
        i += 1;
    }
    assert(cf.take(cf.len() as int) =~= cf);
    n
}

/// The line with the state, name and id of a tunnel.
fn tunnel_notice(tunnel: &CloudflaredTunnel) -> (r: Notice)
    ensures
        r@ == tunnel_line(tunnel@),
{
    let mut line = fresh();
    put_span(&mut line, Style::Plain, "  ");
    if tunnel.connections > 0 {
        put_span(&mut line, Style::GreenBold, "online");
    } else {
        put_span(&mut line, Style::Dimmed, "offline");
    }
    put_span(&mut line, Style::Plain, " ");
    put_span(&mut line, Style::Bold, tunnel.name.as_str());
    put_span(&mut line, Style::Plain, " - ");
    put_span(&mut line, Style::Dimmed, tunnel.id.as_str());
    Notice::Line(line)
}

/// The line that says what a managed tunnel forwards to.
fn target_notice(tunnel: &TunnelMeta) -> (r: Notice)
    ensures
        r@ == target_line(tunnel@),
{
    let mut line = fresh();
    put_span(&mut line, Style::Plain, "    ");
    put_span(&mut line, Style::Green, cat2("https://", tunnel.hostname.as_str()).as_str());
    put_span(&mut line, Style::Plain, " → ");
    put_span(&mut line, Style::Dimmed, tunnel.service.as_str());
    Notice::Line(line)
}

/// The line that says when a tunnel was created and how it is connected.
fn detail_notice(tunnel: &CloudflaredTunnel) -> (r: Notice)
    ensures
        r@ == detail_line(tunnel@),
{
    let mut line = fresh();
    put_span(&mut line, Style::Plain, "    Created: ");
    put_span(&mut line, Style::Dimmed, tunnel.created_at.as_str());
    put_span(
        &mut line,
        Style::Plain,
        cat2(" | Connections: ", decimal_text(tunnel.connections).as_str()).as_str(),
    );
    Notice::Line(line)
}

/// The status of the tunnels that cloudflared lists.
pub fn status_report(listed: &Vec<CloudflaredTunnel>, managed: &Metadata) -> (r: Vec<Notice>)
    ensures
        r.deep_view() == status_report_of(listed.deep_view(), managed@),
{
    let ghost cf = listed.deep_view();
    let ghost m = managed@;
    let mut out = fresh();
    let mut title = fresh();
    put_span(&mut title, Style::Bold, "Cloudflared tunnel status");
    put(&mut out, Notice::Line(title));
    put(&mut out, figure_notice("Total tunnels: ", listed.len()));
    put(&mut out, figure_notice("Managed by cftun: ", managed.len()));
    put(&mut out, figure_notice("Currently online: ", count_online(listed)));
    put(&mut out, blank_notice());
    assert(out.deep_view() == summary_part(cf, m));
    let mut i: usize = 0;
    assert(out.deep_view() =~= summary_part(cf, m) + tunnel_part(cf.take(0), m));
    while i < listed.len()
        invariant
            i <= listed.len(),
            cf == listed.deep_view(),
            m == managed@,
            out.deep_view() == summary_part(cf, m) + tunnel_part(cf.take(i as int), m),
        decreases listed.len() - i,
    {
        assert(cf.take(i + 1).drop_last() =~= cf.take(i as int));
        assert(cf.take(i + 1).last() == listed@[i as int]@);
        put(&mut out, tunnel_notice(&listed[i]));
        if let Some(tunnel) = managed.get(listed[i].name.as_str()) {
            put(&mut out, target_notice(tunnel));
        }
        put(&mut out, detail_notice(&listed[i]));
        assert(out.deep_view() =~= summary_part(cf, m) + tunnel_part(cf.take(i + 1), m));
        i += 1;
    }
    assert(cf.take(cf.len() as int) =~= cf);
    out
}

/// How the tunnel `name` is offered for choice.
pub open spec fn tunnel_choice(name: Seq<char>, tunnel: TunnelMetaView) -> ChoiceView {
    ChoiceView {
        value: name,
        label: Seq::empty().push(bold(name)).push(
            plain("  https://"@ + tunnel.hostname + "  "@),
        ).push(dimmed(tunnel.service)),
        hint: ""@,
    }
}

/// The tunnels of `managed`, in order, for choice.
pub open spec fn tunnel_choices_of(managed: Map<Seq<char>, TunnelMetaView>) -> Seq<ChoiceView> {
    listing(managed).map_values(|name: Seq<char>| tunnel_choice(name, managed[name]))
}

/// The tunnels of `managed`, in order, for choice.
pub fn tunnel_choices(managed: &Metadata) -> (r: Vec<Choice>)
    ensures
        r.deep_view() == tunnel_choices_of(managed@),
{
    let ghost m = managed@;
    let names = managed.names();
    let ghost all = names.deep_view();
    let mut out = fresh();
    let mut i: usize = 0;
    while i < names.len()
        invariant
            i <= names.len(),
            all == names.deep_view(),
            is_listing(m, all),
            m == managed@,
            out.deep_view() == all.take(i as int).map_values(
                |name: Seq<char>| tunnel_choice(name, m[name]),
            ),
        decreases names.len() - i,
    {
        assert(all[i as int] == names@[i as int]@);
        assert(all.contains(all[i as int]));
        assert(m.contains_key(all[i as int]));
        if let Some(tunnel) = managed.get(names[i].as_str()) {
            let mut label = fresh();
            put_span(&mut label, Style::Bold, names[i].as_str());
            put_span(
                &mut label,
                Style::Plain,
                cat3("  https://", tunnel.hostname.as_str(), "  ").as_str(),
            );
            put_span(&mut label, Style::Dimmed, tunnel.service.as_str());
            put(&mut out, Choice { value: names[i].clone(), label, hint: "".to_string() });
        }
        assert(all.take(i + 1) =~= all.take(i as int).push(all[i as int]));
        assert(out.deep_view() =~= all.take(i + 1).map_values(
            |name: Seq<char>| tunnel_choice(name, m[name]),
        ));
        i += 1;
    }
    assert(all.take(all.len() as int) =~= all);
    out
}

/// The request to choose one of the tunnels of `managed`.
pub open spec fn select_tunnel_of(
    message: Seq<char>,
    managed: Map<Seq<char>, TunnelMetaView>,
) -> RequestView {
    RequestView::Select { message, search: true, choices: tunnel_choices_of(managed) }
}

/// The request to choose one of the tunnels of `managed`, if there are any.
pub open spec fn tunnel_select_of(
    message: Seq<char>,
    managed: Map<Seq<char>, TunnelMetaView>,
) -> Result<RequestView, ErrorView> {
    if managed == Map::<Seq<char>, TunnelMetaView>::empty() {
        Err(ErrorView::NoTunnels)
    } else {
        Ok(select_tunnel_of(message, managed))
    }
}

/// The request to choose one of the tunnels of `managed`, if there are any.
pub fn tunnel_select_prompt(message: &str, managed: &Metadata) -> (r: Result<Request, Error>)
    ensures
        match r {
            Ok(request) => tunnel_select_of(message@, managed@) == Ok::<RequestView, ErrorView>(
                request@,
            ),
            Err(e) => tunnel_select_of(message@, managed@) == Err::<RequestView, ErrorView>(e@),
        },
{
    if managed.is_empty() {
        Err(Error::NoTunnels)
    } else {
        Ok(
            Request::Select {
                message: message.to_string(),
                search: true,
                choices: tunnel_choices(managed),
            },
        )
    }
}

/// The line that announces work.
pub open spec fn arrow_line(text: Seq<char>) -> NoticeView {
    NoticeView::Line(Seq::empty().push(cyan("→"@)).push(plain(text)))
}

/// The line that says that something is done.
pub open spec fn tick_line(text: Seq<char>) -> NoticeView {
    NoticeView::Line(Seq::empty().push(green("✓"@)).push(plain(text)))
}

/// The line with the public URL of a tunnel.
pub open spec fn public_url_line(hostname: Seq<char>) -> NoticeView {
    NoticeView::Line(
        Seq::empty().push(plain("  Public URL:   "@)).push(link("https://"@ + hostname)),
    )
}

/// The line with the local service of a tunnel.
pub open spec fn local_target_line(service: Seq<char>) -> NoticeView {
    NoticeView::Line(Seq::empty().push(plain("  Local target: "@)).push(dimmed(service)))
}

/// The line that says how to run a tunnel.
pub open spec fn run_hint_line(name: Seq<char>) -> NoticeView {
    hint("  Run it with:  "@, "cftun run "@ + name)
}

/// The line that announces work.
pub fn arrow_notice(text: &str) -> (r: Notice)
    ensures
        r@ == arrow_line(text@),
{
    let mut line = fresh();
    put_span(&mut line, Style::Cyan, "→");
    put_span(&mut line, Style::Plain, text);
    Notice::Line(line)
}

/// The line that says that something is done.
pub fn tick_notice(text: &str) -> (r: Notice)
    ensures
        r@ == tick_line(text@),
{
    let mut line = fresh();
    put_span(&mut line, Style::Green, "✓");
    put_span(&mut line, Style::Plain, text);
    Notice::Line(line)
}

/// The line with the public URL of a tunnel.
pub fn public_url_notice(hostname: &str) -> (r: Notice)
    ensures
        r@ == public_url_line(hostname@),
{
    let mut line = fresh();
    put_span(&mut line, Style::Plain, "  Public URL:   ");
    put_span(&mut line, Style::GreenUnderlined, cat2("https://", hostname).as_str());
    Notice::Line(line)
}

/// The line with the local service of a tunnel.
pub fn local_target_notice(service: &str) -> (r: Notice)
    ensures
        r@ == local_target_line(service@),
{
    let mut line = fresh();
    put_span(&mut line, Style::Plain, "  Local target: ");
    put_span(&mut line, Style::Dimmed, service);
    Notice::Line(line)
}

/// The line that says how to run a tunnel.
pub fn run_hint_notice(name: &str) -> (r: Notice)
    ensures
        r@ == run_hint_line(name@),
{
    hint_notice("  Run it with:  ", cat2("cftun run ", name).as_str())
}

/// Every managed tunnel has a line in the list, which says whether cloudflared
/// lists it with a connection.
pub proof fn law_list_shows_managed(
    listed: Seq<CloudflaredTunnelView>,
    managed: Map<Seq<char>, TunnelMetaView>,
    name: Seq<char>,
)
    requires
        managed.dom().finite(),
        managed.contains_key(name),
    ensures
        list_report_of(listed, managed).contains(
            managed_line(name, managed[name], is_online(listed, managed[name].uuid)),
        ),
{
    lemma_listing_exists(managed);
    let names = listing(managed);
    assert(names.contains(name));
    let i = choose|i: int| 0 <= i < names.len() && names[i] == name;
    let line = managed_line(name, managed[name], is_online(listed, managed[name].uuid));
    let report = list_report_of(listed, managed);
    assert(managed_lines(listed, managed, names)[i] == line);
    assert(managed_part(listed, managed)[i + 1] == line);
    assert(report[i + 1] == line);
}

/// The tunnels that are not managed are those of the list whose name is not
/// that of a managed tunnel.
pub proof fn law_unmanaged(
    listed: Seq<CloudflaredTunnelView>,
    managed: Map<Seq<char>, TunnelMetaView>,
    tunnel: CloudflaredTunnelView,
)
    ensures
        unmanaged(listed, managed).contains(tunnel) <==> listed.contains(tunnel)
            && !managed.contains_key(tunnel.name),
    decreases listed.len(),
{
    if listed.len() > 0 {
        let front = listed.drop_last();
        let last = listed.last();
        law_unmanaged(front, managed, tunnel);
        let all = unmanaged(listed, managed);
        let before = unmanaged(front, managed);
        if listed.contains(tunnel) {
            let i = choose|i: int| 0 <= i < listed.len() && listed[i] == tunnel;
            if i < front.len() {
                assert(front[i] == tunnel);
            }
        }
        if front.contains(tunnel) {
            let i = choose|i: int| 0 <= i < front.len() && front[i] == tunnel;
            assert(listed[i] == tunnel);
        }
        if before.contains(tunnel) {
            let i = choose|i: int| 0 <= i < before.len() && before[i] == tunnel;
            assert(all[i] == tunnel);
        }
        if all.contains(tunnel) {
            let i = choose|i: int| 0 <= i < all.len() && all[i] == tunnel;
            if i < before.len() {
                assert(before[i] == tunnel);
            }
        }
        if tunnel == last && !managed.contains_key(last.name) {
            assert(all[all.len() - 1] == tunnel);
            assert(listed[listed.len() - 1] == tunnel);
        }
    }
}

/// Every other tunnel that cloudflared lists has a line in the list.
pub proof fn law_list_shows_others(
    listed: Seq<CloudflaredTunnelView>,
    managed: Map<Seq<char>, TunnelMetaView>,
    tunnel: CloudflaredTunnelView,
)
    requires
        listed.contains(tunnel),
        !managed.contains_key(tunnel.name),
    ensures
        list_report_of(listed, managed).contains(other_line(tunnel)),
{
    law_unmanaged(listed, managed, tunnel);
    let others = unmanaged(listed, managed);
    let i = choose|i: int| 0 <= i < others.len() && others[i] == tunnel;
    assert(other_lines(others)[i] == other_line(tunnel));
    assert(other_part(others)[i + 1] == other_line(tunnel));
    let n = managed_part(listed, managed).len() as int;
    assert(list_report_of(listed, managed)[n + i + 1] == other_line(tunnel));
}

/// Every tunnel that cloudflared lists has its lines in the status: whether it is
/// online, what it forwards to where it is managed, and its connections.
pub proof fn law_status_shows_all(
    listed: Seq<CloudflaredTunnelView>,
    managed: Map<Seq<char>, TunnelMetaView>,
    tunnel: CloudflaredTunnelView,
)
    requires
        listed.contains(tunnel),
    ensures
        status_report_of(listed, managed).contains(tunnel_line(tunnel)),
        status_report_of(listed, managed).contains(detail_line(tunnel)),
        managed.contains_key(tunnel.name) ==> status_report_of(listed, managed).contains(
            target_line(managed[tunnel.name]),
        ),
{
    lemma_tunnel_part(listed, managed, tunnel);
    let n = summary_part(listed, managed).len() as int;
    let part = tunnel_part(listed, managed);
    let report = status_report_of(listed, managed);
    assert forall|line: NoticeView| part.contains(line) implies #[trigger] report.contains(
        line,
    ) by {
        let i = choose|i: int| 0 <= i < part.len() && part[i] == line;
        assert(report[n + i] == line);
    }
}

proof fn lemma_tunnel_part(
    listed: Seq<CloudflaredTunnelView>,
    managed: Map<Seq<char>, TunnelMetaView>,
    tunnel: CloudflaredTunnelView,
)
    requires
        listed.contains(tunnel),
    ensures
        tunnel_part(listed, managed).contains(tunnel_line(tunnel)),
        tunnel_part(listed, managed).contains(detail_line(tunnel)),
        managed.contains_key(tunnel.name) ==> tunnel_part(listed, managed).contains(
            target_line(managed[tunnel.name]),
        ),
    decreases listed.len(),
{
    let front = listed.drop_last();
    let before = tunnel_part(front, managed);
    let part = tunnel_part(listed, managed);
    let k = choose|k: int| 0 <= k < listed.len() && listed[k] == tunnel;
    if k < front.len() {
        assert(front[k] == tunnel);
        lemma_tunnel_part(front, managed, tunnel);
        assert forall|line: NoticeView| before.contains(line) implies #[trigger] part.contains(
            line,
        ) by {
            let i = choose|i: int| 0 <= i < before.len() && before[i] == line;
            assert(part[i] == line);
        }
    } else {
        let n = before.len() as int;
        assert(part[n] == tunnel_line(tunnel));
        assert(part[part.len() - 1] == detail_line(tunnel));
        if managed.contains_key(tunnel.name) {
            assert(part[n + 1] == target_line(managed[tunnel.name]));
        }
    }
}

/// The word for whether a tunnel is online, as it is read.
pub open spec fn state_text(online: bool) -> Seq<char> {
    if online {
        "online"@
    } else {
        "offline"@
    }
}

/// What is read of a managed tunnel in the list: its name, its public URL, its
/// service and whether it is online.
pub proof fn law_managed_line_reads(name: Seq<char>, tunnel: TunnelMetaView, online: bool)
    ensures
        readable(managed_line(name, tunnel, online)) == "  • "@ + name + " → https://"@
            + tunnel.hostname + " ("@ + tunnel.service + ") ["@ + state_text(online) + "]"@,
{
    broadcast use lemma_run_together;

    reveal_strlit("  ");
    reveal_strlit("•");
    reveal_strlit(" ");
    reveal_strlit("  • ");
    reveal_strlit(" → ");
    reveal_strlit("https://");
    reveal_strlit(" → https://");
    let none: Seq<char> = Seq::empty();
    let a = none + "  "@ + "•"@ + " "@;
    assert(a =~= "  • "@);
    let b = a + name;
    assert(b + " → "@ + ("https://"@ + tunnel.hostname) =~= b + " → https://"@ + tunnel.hostname);
}

/// What is read of another tunnel in the list: its name, its id and whether it has a
/// connection.
pub proof fn law_other_line_reads(tunnel: CloudflaredTunnelView)
    ensures
        readable(other_line(tunnel)) == "  • "@ + tunnel.name + " ("@ + tunnel.id + ") ["@
            + state_text(tunnel.connections > 0) + "]"@,
{
    broadcast use lemma_run_together;

    reveal_strlit("  ");
    reveal_strlit("•");
    reveal_strlit(" ");
    reveal_strlit("  • ");
    let none: Seq<char> = Seq::empty();
    assert(none + "  "@ + "•"@ + " "@ =~= "  • "@);
}

/// A tunnel is online exactly where one with its id is listed with a connection, and
/// listed exactly where one with its name is.
pub proof fn law_online(listed: Seq<CloudflaredTunnelView>, text: Seq<char>)
    ensures
        is_online(listed, text) <==> exists|t: CloudflaredTunnelView| #[trigger]
            listed.contains(t) && t.id == text && t.connections > 0,
        is_listed(listed, text) <==> exists|t: CloudflaredTunnelView| #[trigger]
            listed.contains(t) && t.name == text,
{
    if is_online(listed, text) {
        let i = choose|i: int|
            0 <= i < listed.len() && (#[trigger] listed[i]).id == text && listed[i].connections > 0;
        assert(listed.contains(listed[i]));
    }
    if is_listed(listed, text) {
        let i = choose|i: int| 0 <= i < listed.len() && (#[trigger] listed[i]).name == text;
        assert(listed.contains(listed[i]));
    }
}

/// The tunnels that are not managed keep the order in which they are listed, each as
/// often as it is listed.
pub proof fn law_unmanaged_in_order(
    a: Seq<CloudflaredTunnelView>,
    t: CloudflaredTunnelView,
    b: Seq<CloudflaredTunnelView>,
    managed: Map<Seq<char>, TunnelMetaView>,
)
    ensures
        unmanaged(Seq::empty(), managed) == Seq::<CloudflaredTunnelView>::empty(),
        managed.contains_key(t.name) ==> unmanaged(a.push(t) + b, managed) == unmanaged(a, managed)
            + unmanaged(b, managed),
        !managed.contains_key(t.name) ==> unmanaged(a.push(t) + b, managed) == unmanaged(
            a,
            managed,
        ).push(t) + unmanaged(b, managed),
    decreases b.len(),
{
    let all = a.push(t) + b;
    if b.len() == 0 {
        assert(all =~= a.push(t));
        assert(a.push(t).drop_last() =~= a);
        assert(unmanaged(b, managed) =~= Seq::empty());
    } else {
        law_unmanaged_in_order(a, t, b.drop_last(), managed);
        assert(all.drop_last() =~= a.push(t) + b.drop_last());
        assert(all.last() == b.last());
    }
}

/// The list, from its first line to its last: a heading, a line for each managed
/// tunnel in the order of their names, or `(none)`, an empty line; the same for the
/// other tunnels, where there are any; and what to do next.
pub proof fn law_list_in_order(
    listed: Seq<CloudflaredTunnelView>,
    managed: Map<Seq<char>, TunnelMetaView>,
)
    ensures
        ({
            let report = list_report_of(listed, managed);
            let names = listing(managed);
            let others = unmanaged(listed, managed);
            let n: int = if names.len() == 0 { 1 } else { names.len() as int };
            let m: int = if others.len() == 0 { 0 } else { others.len() as int + 2 };
            &&& report.len() == n + m + (if others.len() == 0 { 3int } else { 4 })
            &&& readable(report[0]) == "● Tunnels managed by cftun:"@
            &&& names.len() == 0 ==> readable(report[1]) == "  (none)"@
            &&& forall|i: int|
                0 <= i < names.len() ==> #[trigger] report[i + 1] == managed_line(
                    names[i],
                    managed[names[i]],
                    is_online(listed, managed[names[i]].uuid),
                )
            &&& readable(report[n + 1]).len() == 0
            &&& others.len() > 0 ==> readable(report[n + 2]) == "● Other cloudflared tunnels:"@
                && readable(report[n + m + 1]).len() == 0
            &&& forall|i: int|
                0 <= i < others.len() ==> #[trigger] report[n + 3 + i] == other_line(others[i])
            &&& readable(report[n + m + 2]) == "  Create one with: cftun create"@
            &&& others.len() > 0 ==> readable(report[n + m + 3])
                == "  Or adopt an existing tunnel with: cftun import <name> <hostname> <port/url>"@
        }),
{
    broadcast use lemma_run_together;

    reveal_strlit("●");
    reveal_strlit(" Tunnels managed by cftun:");
    reveal_strlit("● Tunnels managed by cftun:");
    reveal_strlit(" Other cloudflared tunnels:");
    reveal_strlit("● Other cloudflared tunnels:");
    reveal_strlit("  Create one with: ");
    reveal_strlit("cftun create");
    reveal_strlit("  Create one with: cftun create");
    reveal_strlit("  Or adopt an existing tunnel with: ");
    reveal_strlit("cftun import <name> <hostname> <port/url>");
    reveal_strlit(
        "  Or adopt an existing tunnel with: cftun import <name> <hostname> <port/url>",
    );
    let none: Seq<char> = Seq::empty();
    assert(none + "●"@ + " Tunnels managed by cftun:"@ =~= "● Tunnels managed by cftun:"@);
    assert(none + "●"@ + " Other cloudflared tunnels:"@ =~= "● Other cloudflared tunnels:"@);
    assert(none + "  (none)"@ =~= "  (none)"@);
    assert(none + "  Create one with: "@ + "cftun create"@ =~= "  Create one with: cftun create"@);
    assert(none + "  Or adopt an existing tunnel with: "@
        + "cftun import <name> <hostname> <port/url>"@
        =~= "  Or adopt an existing tunnel with: cftun import <name> <hostname> <port/url>"@);
    let report = list_report_of(listed, managed);
    let names = listing(managed);
    let others = unmanaged(listed, managed);
    let first = managed_part(listed, managed);
    let second = other_part(others);
    let n: int = if names.len() == 0 { 1 } else { names.len() as int };
    let m: int = if others.len() == 0 { 0 } else { others.len() as int + 2 };
    assert(first.len() == n + 2);
    assert(second.len() == m);
    assert forall|i: int| 0 <= i < names.len() implies #[trigger] report[i + 1] == managed_line(
        names[i],
        managed[names[i]],
        is_online(listed, managed[names[i]].uuid),
    ) by {
        assert(report[i + 1] == first[i + 1]);
    }
    assert forall|i: int| 0 <= i < others.len() implies #[trigger] report[n + 3 + i] == other_line(
        others[i],
    ) by {
        assert(report[n + 3 + i] == second[i + 1]);
    }
    assert(report[0] == first[0]);
    assert(report[1] == first[1]);
    assert(report[n + 1] == first[n + 1]);
    if others.len() > 0 {
        assert(report[n + 2] == second[0]);
        assert(report[n + m + 1] == second[m - 1]);
        assert(report[n + m + 3] == hint_part(others)[1]);
    }
    assert(report[n + m + 2] == hint_part(others)[0]);
}

/// Of tunnels that are listed one after the other, as many are online as of both
/// parts.
pub proof fn law_online_count(a: Seq<CloudflaredTunnelView>, t: CloudflaredTunnelView)
    ensures
        online_count(Seq::empty()) == 0,
        t.connections > 0 ==> online_count(a.push(t)) == online_count(a) + 1,
        t.connections == 0 ==> online_count(a.push(t)) == online_count(a),
{
    assert(a.push(t).drop_last() =~= a);
}

/// The status, from its first line to its last: how many tunnels are listed, managed
/// and online, and then what is said of each that is listed, in order.
pub proof fn law_status_in_order(
    listed: Seq<CloudflaredTunnelView>,
    t: CloudflaredTunnelView,
    managed: Map<Seq<char>, TunnelMetaView>,
)
    ensures
        ({
            let report = status_report_of(listed, managed);
            &&& report.len() >= 5
            &&& readable(report[0]) == "Cloudflared tunnel status"@
            &&& readable(report[1]) == "  Total tunnels: "@ + decimal(listed.len())
            &&& readable(report[2]) == "  Managed by cftun: "@ + decimal(managed.dom().len())
            &&& readable(report[3]) == "  Currently online: "@ + decimal(online_count(listed))
            &&& readable(report[4]).len() == 0
            &&& listed.len() == 0 ==> report.len() == 5
        }),
        ({
            let tail = status_report_of(listed, managed).skip(5);
            let more = status_report_of(listed.push(t), managed).skip(5);
            if managed.contains_key(t.name) {
                more == tail.push(tunnel_line(t)).push(target_line(managed[t.name])).push(
                    detail_line(t),
                )
            } else {
                more == tail.push(tunnel_line(t)).push(detail_line(t))
            }
        }),
{
    broadcast use lemma_run_together;

    reveal_strlit("  ");
    reveal_strlit("Total tunnels: ");
    reveal_strlit("  Total tunnels: ");
    reveal_strlit("Managed by cftun: ");
    reveal_strlit("  Managed by cftun: ");
    reveal_strlit("Currently online: ");
    reveal_strlit("  Currently online: ");
    let none: Seq<char> = Seq::empty();
    assert(none + "Cloudflared tunnel status"@ =~= "Cloudflared tunnel status"@);
    assert(none + "  "@ + "Total tunnels: "@ =~= "  Total tunnels: "@);
    assert(none + "  "@ + "Managed by cftun: "@ =~= "  Managed by cftun: "@);
    assert(none + "  "@ + "Currently online: "@ =~= "  Currently online: "@);
    let report = status_report_of(listed, managed);
    let top = summary_part(listed, managed);
    assert(top.len() == 5);
    assert(report[0] == top[0] && report[1] == top[1] && report[2] == top[2] && report[3] == top[3]
        && report[4] == top[4]);
    assert(report.skip(5) =~= tunnel_part(listed, managed));
    assert(status_report_of(listed.push(t), managed).skip(5) =~= tunnel_part(
        listed.push(t),
        managed,
    ));
    assert(listed.push(t).drop_last() =~= listed);
}

/// What is read of a tunnel in the status: whether it is online, its name and its id;
/// where it is managed, its public URL and its service; when it was created and how
/// many connections it has.
pub proof fn law_status_lines_read(tunnel: CloudflaredTunnelView, managed: TunnelMetaView)
    ensures
        readable(tunnel_line(tunnel)) == "  "@ + state_text(tunnel.connections > 0) + " "@
            + tunnel.name + " - "@ + tunnel.id,
        readable(target_line(managed)) == "    https://"@ + managed.hostname + " → "@
            + managed.service,
        readable(detail_line(tunnel)) == "    Created: "@ + tunnel.created_at + " | Connections: "@
            + decimal(tunnel.connections),
{
    broadcast use lemma_run_together;

    reveal_strlit("    ");
    reveal_strlit("https://");
    reveal_strlit("    https://");
    let none: Seq<char> = Seq::empty();
    assert(none + "  "@ =~= "  "@);
    assert(none + "    Created: "@ =~= "    Created: "@);
    assert(none + "    "@ + ("https://"@ + managed.hostname) =~= "    https://"@
        + managed.hostname);
    let c = "    Created: "@ + tunnel.created_at;
    assert(c + (" | Connections: "@ + decimal(tunnel.connections)) =~= c + " | Connections: "@
        + decimal(tunnel.connections));
}

/// To choose from are the managed tunnels, each under its name, in the order of the
/// names; what is read is the name, the public URL and the service.
pub proof fn law_choices(message: Seq<char>, managed: Map<Seq<char>, TunnelMetaView>)
    ensures
        ({
            let names = listing(managed);
            &&& select_tunnel_of(message, managed) is Select
            &&& select_tunnel_of(message, managed)->message == message
            &&& select_tunnel_of(message, managed)->search
            &&& tunnel_choices_of(managed).len() == names.len()
            &&& select_tunnel_of(message, managed)->choices == tunnel_choices_of(managed)
            &&& forall|i: int|
                0 <= i < names.len() ==> {
                    let choice = #[trigger] tunnel_choices_of(managed)[i];
                    let tunnel = managed[names[i]];
                    &&& choice.value == names[i]
                    &&& run_together(choice.label) == names[i] + "  https://"@ + tunnel.hostname
                        + "  "@ + tunnel.service
                }
        }),
{
    broadcast use lemma_run_together;

    let names = listing(managed);
    let none: Seq<char> = Seq::empty();
    assert forall|i: int| 0 <= i < names.len() implies {
        let choice = #[trigger] tunnel_choices_of(managed)[i];
        let tunnel = managed[names[i]];
        &&& choice.value == names[i]
        &&& run_together(choice.label) == names[i] + "  https://"@ + tunnel.hostname + "  "@
            + tunnel.service
    } by {
        let tunnel = managed[names[i]];
        assert(none + names[i] =~= names[i]);
        assert(names[i] + ("  https://"@ + tunnel.hostname + "  "@) =~= names[i] + "  https://"@
            + tunnel.hostname + "  "@);
    }
}

/// What is read when work begins, when it is done, and of a tunnel that is ready.
pub proof fn law_lines_read(text: Seq<char>)
    ensures
        readable(arrow_line(text)) == "→"@ + text,
        readable(tick_line(text)) == "✓"@ + text,
        readable(public_url_line(text)) == "  Public URL:   https://"@ + text,
        readable(local_target_line(text)) == "  Local target: "@ + text,
        readable(run_hint_line(text)) == "  Run it with:  cftun run "@ + text,
        readable(blank()).len() == 0,
{
    broadcast use lemma_run_together;

    reveal_strlit("  Public URL:   ");
    reveal_strlit("https://");
    reveal_strlit("  Public URL:   https://");
    reveal_strlit("  Run it with:  ");
    reveal_strlit("cftun run ");
    reveal_strlit("  Run it with:  cftun run ");
    let none: Seq<char> = Seq::empty();
    assert(none + "→"@ =~= "→"@);
    assert(none + "✓"@ =~= "✓"@);
    assert(none + "  Public URL:   "@ + ("https://"@ + text) =~= "  Public URL:   https://"@
        + text);
    assert(none + "  Local target: "@ =~= "  Local target: "@);
    assert(none + "  Run it with:  "@ + ("cftun run "@ + text) =~= "  Run it with:  cftun run "@
        + text);
}

} // verus!
