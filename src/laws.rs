use vstd::prelude::*;
use crate::event::EventView;
use crate::render::{
    ButtonView, card_buttons, card_of, CardView, event_header, join, prefix_all, recipients,
    separator,
};

verus! {

proof fn join_front(items: Seq<Seq<char>>, sep: Seq<char>)
    requires
        items.len() >= 2,
    ensures
        join(items, sep) == items[0] + sep + join(items.subrange(1, items.len() as int), sep),
    decreases items.len(),
{
    let rest = items.subrange(1, items.len() as int);
    if items.len() == 2 {
        assert(rest =~= seq![items[1]]);
        assert(items.drop_last() =~= seq![items[0]]);
        assert(join(items.drop_last(), sep) == items[0]);
        assert(join(rest, sep) == items[1]);
    } else {
        join_front(items.drop_last(), sep);
        assert(items.drop_last().subrange(1, items.len() - 1) =~= rest.drop_last());
        assert(rest.last() == items.last());
        assert(join(rest, sep) == join(rest.drop_last(), sep) + sep + rest.last());
        assert(join(items, sep) =~= items[0] + sep + join(rest, sep));
    }
}

/// The recipient line is empty exactly when there are no labels; one label
/// gives the prefix and that label with no separator; with two or more, the
/// first prefixed label comes first and the rest follow after ", ", and the
/// last prefixed label comes last after ", ", so that the order is kept.
/// (A single empty label with an empty prefix gives an empty line too, so
/// that input is left out.)
pub proof fn recipients_shape(labels: Seq<Seq<char>>, prefix: Seq<char>)
    requires
        labels.len() == 1 ==> prefix.len() + labels[0].len() > 0,
    ensures
        (recipients(labels, prefix).len() == 0) <==> (labels.len() == 0),
        labels.len() == 1 ==> recipients(labels, prefix) == prefix + labels[0],
        labels.len() >= 2 ==> recipients(labels, prefix) == prefix + labels[0] + separator()
            + recipients(labels.subrange(1, labels.len() as int), prefix),
        labels.len() >= 2 ==> recipients(labels, prefix) == recipients(labels.drop_last(), prefix)
            + separator() + prefix + labels.last(),
{
    reveal_strlit(", ");
    let items = prefix_all(labels, prefix);
    if labels.len() >= 2 {
        join_front(items, separator());
        assert(items.subrange(1, items.len() as int) =~= prefix_all(
            labels.subrange(1, labels.len() as int),
            prefix,
        ));
        assert(items.drop_last() =~= prefix_all(labels.drop_last(), prefix));
        assert(recipients(labels, prefix) =~= recipients(labels.drop_last(), prefix)
            + separator() + (prefix + labels.last()));
        assert(recipients(labels, prefix) =~= (prefix + labels[0]) + separator()
            + recipients(labels.subrange(1, labels.len() as int), prefix));
    }
}

/// Changing only the workflow, only the run identifier or only the error
/// text of an event changes only that part of its header message: the text
/// before it and the text after it stay the same.
pub proof fn header_fields_isolated(e1: EventView, e2: EventView)
    requires
        e1.categories == e2.categories,
    ensures
        e1.exc_id == e2.exc_id && e1.message == e2.message ==> exists|pre: Seq<char>, post: Seq<char>|
            event_header(e1) == pre + e1.workflow + post && event_header(e2) == pre + e2.workflow + post,
        e1.workflow == e2.workflow && e1.message == e2.message ==> exists|pre: Seq<char>, post: Seq<char>|
            event_header(e1) == pre + e1.exc_id + post && event_header(e2) == pre + e2.exc_id + post,
        e1.workflow == e2.workflow && e1.exc_id == e2.exc_id ==> exists|pre: Seq<char>, post: Seq<char>|
            event_header(e1) == pre + e1.message + post && event_header(e2) == pre + e2.message + post,
{
    let callout = recipients(e1.categories, "@"@);
    let open_bold = "</font></b>; failed for the production ID: <b><font color='black'>"@;
    let open_red = "</font></b>. This is the error message: <font color='#FF0000'>"@;
    let pre_w = "Hi "@ + callout + ", The workflow: <b><font color='black'>"@;
    if e1.exc_id == e2.exc_id && e1.message == e2.message {
        let post = open_bold + e1.exc_id + open_red + e1.message + "</font>"@;
        assert(event_header(e1) =~= pre_w + e1.workflow + post);
        assert(event_header(e2) =~= pre_w + e2.workflow + post);
    }
    if e1.workflow == e2.workflow && e1.message == e2.message {
        let pre = pre_w + e1.workflow + open_bold;
        let post = open_red + e1.message + "</font>"@;
        assert(event_header(e1) =~= pre + e1.exc_id + post);
        assert(event_header(e2) =~= pre + e2.exc_id + post);
    }
    if e1.workflow == e2.workflow && e1.exc_id == e2.exc_id {
        let pre = pre_w + e1.workflow + open_bold + e1.exc_id + open_red;
        let post = "</font>"@;
        assert(event_header(e1) =~= pre + e1.message + post);
        assert(event_header(e2) =~= pre + e2.message + post);
    }
}

/// No links give no buttons; a continue link alone gives one "Continue"
/// button; an abort link alone gives one "Abort" button; both give
/// "Continue" and then "Abort".
pub proof fn button_cases(e: EventView)
    ensures
        e.continue_url is None && e.abort_url is None ==> card_buttons(e) == Seq::<ButtonView>::empty(),
        e.continue_url is Some && e.abort_url is None ==> card_buttons(e) == seq![
            ButtonView { text: "Continue"@, url: e.continue_url->0 },
        ],
        e.continue_url is None && e.abort_url is Some ==> card_buttons(e) == seq![
            ButtonView { text: "Abort"@, url: e.abort_url->0 },
        ],
        e.continue_url is Some && e.abort_url is Some ==> card_buttons(e) == seq![
            ButtonView { text: "Continue"@, url: e.continue_url->0 },
            ButtonView { text: "Abort"@, url: e.abort_url->0 },
        ],
{
    match (e.continue_url, e.abort_url) {
        (None, None) => assert(card_buttons(e) =~= Seq::<ButtonView>::empty()),
        (Some(c), None) => assert(card_buttons(e) =~= seq![ButtonView { text: "Continue"@, url: c }]),
        (None, Some(a)) => assert(card_buttons(e) =~= seq![ButtonView { text: "Abort"@, url: a }]),
        (Some(c), Some(a)) => assert(card_buttons(e) =~= seq![
            ButtonView { text: "Continue"@, url: c },
            ButtonView { text: "Abort"@, url: a },
        ]),
    }
}

/// The card depends on the event alone: equal events give equal cards.
pub proof fn card_deterministic(e1: EventView, e2: EventView)
    requires
        e1 == e2,
    ensures
        card_of(e1) == card_of(e2),
{
}

} // verus!
