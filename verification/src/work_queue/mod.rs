//! Work queue slice: THE operator feed. Classified inputs become work items
//! per category policy; the operator accepts (→ packet production) or dismisses.
//! Surfaces are views over this one feed — no per-page read models.

pub mod agent_launch;
pub mod emit;
pub mod emit_laws;
pub mod feed;
pub mod feed_laws;
pub mod items;
pub mod launch;
pub mod launch_laws;
pub mod laws;
pub mod listing_laws;
pub mod model;
pub mod notice_laws;
pub mod plan;
pub mod policies;
pub mod policy_laws;
pub mod prompt_laws;
pub mod queries;
pub mod record_laws;
pub mod routes;
pub mod service;
pub mod service_laws;
pub mod store;
pub mod store_laws;

use vstd::prelude::*;

use crate::contracts::work_queue::PacketKindRecord;
use crate::text::same_text;

verus! {

pub const SOURCE_KIND_EMAIL: &'static str = "email";

pub const SOURCE_KIND_OPERATOR_NOTE: &'static str = "operator_note";

pub const SOURCE_KIND_STOCKFORGE_DAMAGE: &'static str = "stockforge_damage";

/// What a [`PacketKindRecord`] says.
pub struct PacketKindView {
    pub kind_id: Seq<char>,
    pub title: Seq<char>,
    pub description: Seq<char>,
    pub produce_available: bool,
}

impl DeepView for PacketKindRecord {
    type V = PacketKindView;

    open spec fn deep_view(&self) -> PacketKindView {
        PacketKindView {
            kind_id: self.kind_id@,
            title: self.title@,
            description: self.description@,
            produce_available: self.produce_available,
        }
    }
}

/// A catalog entry that is wired end-to-end.
pub open spec fn produced_kind(
    kind_id: Seq<char>,
    title: Seq<char>,
    description: Seq<char>,
) -> PacketKindView {
    PacketKindView { kind_id, title, description, produce_available: true }
}

/// The name of the invoicing system that approvals write to, where the accounting
/// provider has one.
pub open spec fn invoicing_name(provider: Option<Seq<char>>) -> Option<Seq<char>> {
    match provider {
        Some(id) => if id == "invoice_ninja"@ {
            Some("Invoice Ninja"@)
        } else if id == "stripe"@ {
            Some("Stripe"@)
        } else {
            None
        },
        None => None,
    }
}

/// The title of the invoice kind.
pub open spec fn invoice_title(provider: Option<Seq<char>>) -> Seq<char> {
    match invoicing_name(provider) {
        Some(name) => "Invoice draft ("@ + name + ")"@,
        None => "Invoice draft"@,
    }
}

/// The description of the invoice kind.
pub open spec fn invoice_description(provider: Option<Seq<char>>) -> Seq<char> {
    "An invoice drafted from a note or email describing billable work. Customer and line items are taken directly from the source — amounts are never invented by AI. Approve to create a draft in "@
        + (match invoicing_name(provider) {
        Some(name) => name,
        None => "your invoicing system"@,
    }) + "; sending always stays with you."@
}

/// The packet-kind catalog.
pub open spec fn catalog_of(provider: Option<Seq<char>>) -> Seq<PacketKindView> {
    seq![
        produced_kind(
            "follow_up_task"@,
            "Follow-up task"@,
            "A follow-up task with a due date and context, drafted from the source message. Saved locally — nothing is sent to an external service."@,
        ),
        produced_kind(
            "email_draft_reply"@,
            "Email draft reply"@,
            "A drafted reply to the source message, staged for your review before a Gmail draft is created. Sending always stays with you."@,
        ),
        produced_kind(
            "calendar_event_draft"@,
            "Calendar event draft"@,
            "A calendar event drafted from the source message, staged for your review before anything is added to your calendar."@,
        ),
        produced_kind(
            "crm_activity"@,
            "Log CRM note"@,
            "A note logging the call or email (who contacted, what they wanted, next steps), staged for your review before anything is added to your CRM. If the contact doesn't yet exist, a record-creation draft is proposed first."@,
        ),
        produced_kind(
            "crm_record_create"@,
            "Create CRM records"@,
            "Creates the company and/or contact records referenced in a note, if they don't already exist in your CRM. Review and approve before any records are added. Currently supports EspoCRM."@,
        ),
        produced_kind(
            "crm_sales_intent"@,
            "Create CRM lead"@,
            "Stages pipeline intent separately from CRM contacts and companies. A lead means sales interest or an unqualified opportunity; approval creates an EspoCRM Lead when supported."@,
        ),
        produced_kind(
            "ledger_entry"@,
            "Record received payment"@,
            "Records a received payment in your accounting system — payer, amount, and date are taken directly from the source email. Staged for your review before anything is recorded."@,
        ),
        produced_kind(
            "content_draft"@,
            "Content draft"@,
            "A blog post or web page drafted from the brief using your Drive documents as the only source. Every statement must be supported by your documents — unsupported content is blocked before approval. Publishing always stays with you."@,
        ),
        produced_kind("invoice_draft"@, invoice_title(provider), invoice_description(provider)),
        produced_kind(
            "claim_draft"@,
            "Shipping damage claim packet"@,
            "A shipping-damage claim packet assembled from your order evidence (order reference, pack photos, tracking, damage photos). Completeness is checked before approval. Approving creates a Gmail draft for manual carrier or shipping-platform filing, plus a follow-up task."@,
        ),
    ]
}

fn kind(kind_id: &str, title: &str, description: &str) -> (r: PacketKindRecord)
    ensures
        r.deep_view() == produced_kind(kind_id@, title@, description@),
{
    PacketKindRecord {
        kind_id: kind_id.to_owned(),
        title: title.to_owned(),
        description: description.to_owned(),
        produce_available: true,
    }
}

fn invoicing_system(accounting_provider: Option<&str>) -> (r: Option<&'static str>)
    ensures
        r.deep_view() == invoicing_name(accounting_provider.deep_view()),
{
    match accounting_provider {
        Some(id) => if same_text(id, "invoice_ninja") {
            Some("Invoice Ninja")
        } else if same_text(id, "stripe") {
            Some("Stripe")
        } else {
            None
        },
        None => None,
    }
}

/// The packet-kind catalog: every typed transform the platform can produce.
/// Adding a kind here is a CODE change because each kind must be backed by an
/// output schema + produce implementation + write binding (produce slice).
///
/// `accounting_provider` is the configured accounting provider, where one is
/// configured: it names the invoicing system that approvals write to.
pub fn packet_kind_catalog(accounting_provider: Option<&str>) -> (r: Vec<PacketKindRecord>)
    ensures
        r.deep_view() == catalog_of(accounting_provider.deep_view()),
{
    let invoicing: Option<&'static str> = invoicing_system(accounting_provider);
    let invoice_title: String = match invoicing {
        Some(name) => "Invoice draft (".to_owned().concat(name).concat(")"),
        None => "Invoice draft".to_owned(),
    };
    let invoice_target: &str = match invoicing {
        Some(name) => name,
        None => "your invoicing system",
    };
    let invoice_description: String =
        "An invoice drafted from a note or email describing billable work. Customer and line items are taken directly from the source — amounts are never invented by AI. Approve to create a draft in ".to_owned().concat(
        invoice_target,
    ).concat("; sending always stays with you.");
    let catalog: Vec<PacketKindRecord> = vec![
        kind(
            "follow_up_task",
            "Follow-up task",
            "A follow-up task with a due date and context, drafted from the source message. Saved locally — nothing is sent to an external service.",
        ),
        kind(
            "email_draft_reply",
            "Email draft reply",
            "A drafted reply to the source message, staged for your review before a Gmail draft is created. Sending always stays with you.",
        ),
        kind(
            "calendar_event_draft",
            "Calendar event draft",
            "A calendar event drafted from the source message, staged for your review before anything is added to your calendar.",
        ),
        kind(
            "crm_activity",
            "Log CRM note",
            "A note logging the call or email (who contacted, what they wanted, next steps), staged for your review before anything is added to your CRM. If the contact doesn't yet exist, a record-creation draft is proposed first.",
        ),
        kind(
            "crm_record_create",
            "Create CRM records",
            "Creates the company and/or contact records referenced in a note, if they don't already exist in your CRM. Review and approve before any records are added. Currently supports EspoCRM.",
        ),
        kind(
            "crm_sales_intent",
            "Create CRM lead",
            "Stages pipeline intent separately from CRM contacts and companies. A lead means sales interest or an unqualified opportunity; approval creates an EspoCRM Lead when supported.",
        ),
        kind(
            "ledger_entry",
            "Record received payment",
            "Records a received payment in your accounting system — payer, amount, and date are taken directly from the source email. Staged for your review before anything is recorded.",
        ),
        kind(
            "content_draft",
            "Content draft",
            "A blog post or web page drafted from the brief using your Drive documents as the only source. Every statement must be supported by your documents — unsupported content is blocked before approval. Publishing always stays with you.",
        ),
        kind("invoice_draft", invoice_title.as_str(), invoice_description.as_str()),
        kind(
            "claim_draft",
            "Shipping damage claim packet",
            "A shipping-damage claim packet assembled from your order evidence (order reference, pack photos, tracking, damage photos). Completeness is checked before approval. Approving creates a Gmail draft for manual carrier or shipping-platform filing, plus a follow-up task.",
        ),
    ];
    proof {
        assert(catalog.deep_view() =~= catalog_of(accounting_provider.deep_view()));
    }
    catalog
}

/// The kind is one of the catalog's.
pub open spec fn kind_in_catalog(kind_id: Seq<char>) -> bool {
    ||| kind_id == "follow_up_task"@
    ||| kind_id == "email_draft_reply"@
    ||| kind_id == "calendar_event_draft"@
    ||| kind_id == "crm_activity"@
    ||| kind_id == "crm_record_create"@
    ||| kind_id == "crm_sales_intent"@
    ||| kind_id == "ledger_entry"@
    ||| kind_id == "content_draft"@
    ||| kind_id == "invoice_draft"@
    ||| kind_id == "claim_draft"@
}

/// A kind is in the catalog exactly when an entry has its id, whatever the
/// accounting provider.
pub proof fn catalog_holds_its_kinds(provider: Option<Seq<char>>, kind_id: Seq<char>)
    ensures
        kind_in_catalog(kind_id) <==> exists|i: int|
            0 <= i < catalog_of(provider).len() && (#[trigger] catalog_of(provider)[i]).kind_id
                == kind_id,
{
    let c = catalog_of(provider);
    assert(c.len() == 10);
    assert(c[0].kind_id == "follow_up_task"@);
    assert(c[1].kind_id == "email_draft_reply"@);
    assert(c[2].kind_id == "calendar_event_draft"@);
    assert(c[3].kind_id == "crm_activity"@);
    assert(c[4].kind_id == "crm_record_create"@);
    assert(c[5].kind_id == "crm_sales_intent"@);
    assert(c[6].kind_id == "ledger_entry"@);
    assert(c[7].kind_id == "content_draft"@);
    assert(c[8].kind_id == "invoice_draft"@);
    assert(c[9].kind_id == "claim_draft"@);
}

pub fn packet_kind_exists(kind_id: &str) -> (r: bool)
    ensures
        r == kind_in_catalog(kind_id@),
{
    let catalog: Vec<PacketKindRecord> = packet_kind_catalog(None);
    proof {
        catalog_holds_its_kinds(None, kind_id@);
    }
    let mut i: usize = 0;
    while i < catalog.len()
        invariant
            i <= catalog.len(),
            catalog.deep_view() == catalog_of(None),
            forall|j: int| 0 <= j < i ==> catalog_of(None)[j].kind_id != kind_id@,
        decreases catalog.len() - i,
    {
        assert(catalog.deep_view()[i as int].kind_id == catalog[i as int].kind_id@);
        if same_text(catalog[i].kind_id.as_str(), kind_id) {
            proof {
                catalog_holds_its_kinds(None, kind_id@);
            }
            return true;
        }
        i += 1;
    }
    false
}

/// The slice that backs a catalog kind end-to-end (produce + write). A kind is
/// only meaningful — offerable in the Categories "Produce" picker, emittable by
/// policy, runnable by the produce spine — when its owning slice is enabled for
/// the client. This is the single ownership map for the full catalog.
pub open spec fn slice_of_kind(kind_id: Seq<char>) -> Option<Seq<char>> {
    if kind_id == "follow_up_task"@ {
        Some("follow_up_tasks"@)
    } else if kind_id == "email_draft_reply"@ {
        Some("email_drafts"@)
    } else if kind_id == "calendar_event_draft"@ {
        Some("calendar_drafts"@)
    } else if kind_id == "crm_activity"@ {
        Some("crm_drafts"@)
    } else if kind_id == "crm_record_create"@ {
        Some("crm_record_drafts"@)
    } else if kind_id == "crm_sales_intent"@ {
        Some("crm_sales_intent"@)
    } else if kind_id == "ledger_entry"@ {
        Some("ledger_drafts"@)
    } else if kind_id == "content_draft"@ {
        Some("content_drafts"@)
    } else if kind_id == "invoice_draft"@ {
        Some("invoice_drafts"@)
    } else if kind_id == "claim_draft"@ {
        Some("claim_drafts"@)
    } else {
        None
    }
}

/// Owning slice id for a catalog kind, or `None` if the kind is unknown.
pub fn packet_kind_slice(kind_id: &str) -> (r: Option<&'static str>)
    ensures
        r.deep_view() == slice_of_kind(kind_id@),
{
    if same_text(kind_id, "follow_up_task") {
        Some("follow_up_tasks")
    } else if same_text(kind_id, "email_draft_reply") {
        Some("email_drafts")
    } else if same_text(kind_id, "calendar_event_draft") {
        Some("calendar_drafts")
    } else if same_text(kind_id, "crm_activity") {
        Some("crm_drafts")
    } else if same_text(kind_id, "crm_record_create") {
        Some("crm_record_drafts")
    } else if same_text(kind_id, "crm_sales_intent") {
        Some("crm_sales_intent")
    } else if same_text(kind_id, "ledger_entry") {
        Some("ledger_drafts")
    } else if same_text(kind_id, "content_draft") {
        Some("content_drafts")
    } else if same_text(kind_id, "invoice_draft") {
        Some("invoice_drafts")
    } else if same_text(kind_id, "claim_draft") {
        Some("claim_drafts")
    } else {
        None
    }
}

/// Every catalog kind has an owning slice, and nothing else has one.
pub proof fn every_kind_has_an_owner(kind_id: Seq<char>)
    ensures
        kind_in_catalog(kind_id) <==> slice_of_kind(kind_id) is Some,
{
}

/// The entries whose answer is yes, in their order.
pub open spec fn kept<T>(entries: Seq<T>, answers: Seq<bool>) -> Seq<T>
    decreases entries.len(),
{
    if entries.len() == 0 {
        Seq::empty()
    } else if answers[entries.len() - 1] {
        kept(entries.drop_last(), answers).push(entries.last())
    } else {
        kept(entries.drop_last(), answers)
    }
}

/// `answer` is what the owning slice of `kind` may answer.
pub open spec fn owner_answers<F: Fn(&str) -> bool>(
    slice_enabled: F,
    kind: PacketKindView,
    answer: bool,
) -> bool {
    exists|slice: &str|
        Some(slice@) == slice_of_kind(kind.kind_id) && #[trigger] slice_enabled.ensures(
            (slice,),
            answer,
        )
}

/// `answers` holds, for each kind, what its owning slice may answer.
pub open spec fn owners_answer<F: Fn(&str) -> bool>(
    slice_enabled: F,
    kinds: Seq<PacketKindView>,
    answers: Seq<bool>,
) -> bool {
    &&& answers.len() == kinds.len()
    &&& forall|i: int|
        0 <= i < kinds.len() ==> #[trigger] owner_answers(slice_enabled, kinds[i], answers[i])
}

/// The slice owns a kind of the catalog.
pub open spec fn owns_a_kind(slice: Seq<char>) -> bool {
    exists|kind: Seq<char>|
        kind_in_catalog(kind) && #[trigger] slice_of_kind(kind) == Some(slice)
}

/// The catalog filtered to kinds whose owning slice is enabled for the client.
/// `slice_enabled` is asked of slices that own a kind, and of no other.
/// This is what the operator-facing picker is served — a client never sees a
/// produce option (e.g. invoice drafts) for a slice the instance doesn't run.
pub fn packet_kind_catalog_for_enabled<F>(
    accounting_provider: Option<&str>,
    slice_enabled: F,
) -> (r: Vec<PacketKindRecord>) where F: Fn(&str) -> bool
    requires
        forall|slice: &str| owns_a_kind(slice@) ==> #[trigger] slice_enabled.requires((slice,)),
    ensures
        exists|answers: Seq<bool>|
            #[trigger] owners_answer(
                slice_enabled,
                catalog_of(accounting_provider.deep_view()),
                answers,
            ) && r.deep_view() == kept(catalog_of(accounting_provider.deep_view()), answers),
{
    let mut rest: Vec<PacketKindRecord> = packet_kind_catalog(accounting_provider);
    let ghost catalog = catalog_of(accounting_provider.deep_view());
    let ghost mut answers: Seq<bool> = Seq::empty();
    let mut out: Vec<PacketKindRecord> = Vec::new();
    proof {
        assert(out.deep_view() =~= kept(catalog.take(0), answers));
    }
    for record in it: rest
        invariant
            it.seq().len() == catalog.len(),
            forall|i: int| 0 <= i < catalog.len() ==> (#[trigger] it.seq()[i]).deep_view() == catalog[i],
            catalog == catalog_of(accounting_provider.deep_view()),
            answers.len() == it.index(),
            forall|slice: &str| owns_a_kind(slice@) ==> #[trigger] slice_enabled.requires((slice,)),
            forall|i: int| 0 <= i < answers.len() ==> #[trigger] owner_answers(
                slice_enabled,
                catalog[i],
                answers[i],
            ),
            out.deep_view() == kept(catalog.take(it.index()), answers),
    {
        proof {
            catalog_holds_its_kinds(accounting_provider.deep_view(), record.kind_id@);
        }
        let ghost n = it.index();
        let ghost before = out.deep_view();
        let owner: Option<&'static str> = packet_kind_slice(record.kind_id.as_str());
        assert(owner is Some);
        if let Some(slice) = owner {
            assert(slice_of_kind(record.kind_id@) == Some(slice@));
            let enabled: bool = slice_enabled(slice);
            proof {
                kept_ignores_later_answers(catalog.take(n), answers, enabled);
                assert(owner_answers(slice_enabled, catalog[n], enabled));
                answers = answers.push(enabled);
                assert(catalog.take(n + 1).drop_last() =~= catalog.take(n));
            }
            if enabled {
                out.push(record);
                proof {
                    assert(out.deep_view() =~= before.push(catalog[n]));
                }
            }
        }
    }
    proof {
        assert(catalog.take(catalog.len() as int) =~= catalog);
        assert(owners_answer(slice_enabled, catalog, answers));
    }
    out
}

proof fn kept_ignores_later_answers<T>(entries: Seq<T>, answers: Seq<bool>, more: bool)
    requires
        entries.len() <= answers.len(),
    ensures
        kept(entries, answers.push(more)) == kept(entries, answers),
    decreases entries.len(),
{
    if entries.len() > 0 {
        kept_ignores_later_answers(entries.drop_last(), answers, more);
    }
}

/// Where `slice_enabled` answers by the slice's name alone, the picker is served
/// exactly the kinds whose owning slice is enabled, in the order of the catalog.
pub proof fn enabled_catalog_is_a_filter<F: Fn(&str) -> bool>(
    slice_enabled: F,
    enabled: spec_fn(Seq<char>) -> bool,
    kinds: Seq<PacketKindView>,
    answers: Seq<bool>,
)
    requires
        forall|slice: &str, answer: bool| #[trigger]
            slice_enabled.ensures((slice,), answer) ==> answer == enabled(slice@),
        owners_answer(slice_enabled, kinds, answers),
    ensures
        kept(kinds, answers) == kinds.filter(
            |kind: PacketKindView| enabled(slice_of_kind(kind.kind_id)->0),
        ),
    decreases kinds.len(),
{
    reveal(Seq::filter);
    if kinds.len() > 0 {
        let n = kinds.len() - 1;
        assert(owner_answers(slice_enabled, kinds[n], answers[n]));
        let fewer = kinds.drop_last();
        assert forall|i: int| 0 <= i < fewer.len() implies #[trigger] owner_answers(
            slice_enabled,
            fewer[i],
            answers.drop_last()[i],
        ) by {
            assert(owner_answers(slice_enabled, kinds[i], answers[i]));
        }
        enabled_catalog_is_a_filter(slice_enabled, enabled, fewer, answers.drop_last());
        kept_ignores_later_answers(fewer, answers.drop_last(), answers.last());
        assert(answers.drop_last().push(answers.last()) =~= answers);
    }
}

} // verus!
