use vstd::prelude::*;
use crate::event::{AMErrorEvent, EventView, texts};

verus! {

/// The separator placed between two recipients.
pub open spec fn separator() -> Seq<char> {
    ", "@
}

/// Each label with `prefix` in front of it.
pub open spec fn prefix_all(labels: Seq<Seq<char>>, prefix: Seq<char>) -> Seq<Seq<char>> {
    labels.map_values(|l: Seq<char>| prefix + l)
}

/// The items in order, with `sep` between each two neighbours.
pub open spec fn join(items: Seq<Seq<char>>, sep: Seq<char>) -> Seq<char>
    decreases items.len(),
{
    if items.len() == 0 {
        Seq::empty()
    } else if items.len() == 1 {
        items[0]
    } else {
        join(items.drop_last(), sep) + sep + items.last()
    }
}

/// The recipient line: every label prefixed, joined by comma and space.
pub open spec fn recipients(labels: Seq<Seq<char>>, prefix: Seq<char>) -> Seq<char> {
    join(prefix_all(labels, prefix), separator())
}

/// The recipient line: each label with `prefix` in front, in the given
/// order, joined by ", "; empty for no labels.
pub fn format_recepients(recepients: &[String], prefix: &str) -> (r: String)
    ensures
        r@ == recipients(texts(recepients@), prefix@),
{
    let mut out = String::new();
    let mut i: usize = 0;
    while i < recepients.len()
        invariant
            0 <= i <= recepients@.len(),
            out@ == recipients(texts(recepients@.take(i as int)), prefix@),
        decreases recepients@.len() - i,
    {
        let ghost before = out@;
        if i > 0 {
            out.append(", ");
        }
        out.append(prefix);
        out.append(recepients[i].as_str());
        proof {
            let done = prefix_all(texts(recepients@.take(i as int)), prefix@);
            let next = prefix_all(texts(recepients@.take(i + 1)), prefix@);
            assert(next.drop_last() =~= done);
            assert(next.last() == prefix@ + recepients@[i as int]@);
            if i == 0 {
                assert(out@ =~= next[0]);
            } else {
                assert(out@ =~= before + separator() + next.last());
            }
        }
        i += 1;
    }
    proof {
        assert(recepients@.take(recepients@.len() as int) =~= recepients@);
    }
    out
}

/// The header message: a greeting of the call-out, then the workflow, the
/// run identifier and the error text, each inside its fixed markup.
pub open spec fn header_message(
    callout: Seq<char>,
    workflow: Seq<char>,
    exc_id: Seq<char>,
    message: Seq<char>,
) -> Seq<char> {
    "Hi "@ + callout + ", The workflow: <b><font color='black'>"@ + workflow
        + "</font></b>; failed for the production ID: <b><font color='black'>"@ + exc_id
        + "</font></b>. This is the error message: <font color='#FF0000'>"@ + message
        + "</font>"@
}

/// The header message of an event, greeting its categories with `@`.
pub open spec fn event_header(e: EventView) -> Seq<char> {
    header_message(recipients(e.categories, "@"@), e.workflow, e.exc_id, e.message)
}

/// The marked-up header message of `event`, greeting its categories with `@`.
/// The event's texts go in as they are, without escaping.
pub fn create_header_message(event: &AMErrorEvent) -> (r: String)
    ensures
        r@ == event_header(event@),
{
    let categories = format_recepients(event.categories.as_slice(), "@");
    let mut out = String::new();
    out.append("Hi ");
    out.append(categories.as_str());
    out.append(", The workflow: <b><font color='black'>");
    out.append(event.workflow.as_str());
    out.append("</font></b>; failed for the production ID: <b><font color='black'>");
    out.append(event.exc_id.as_str());
    out.append("</font></b>. This is the error message: <font color='#FF0000'>");
    out.append(event.message.as_str());
    out.append("</font>");
    proof {
        assert(out@ =~= event_header(event@));
    }
    out
}

/// An action button: a label and the link that it opens.
pub struct Button {
    pub text: String,
    pub url: String,
}

/// The label and link of a button as text.
pub struct ButtonView {
    pub text: Seq<char>,
    pub url: Seq<char>,
}

impl View for Button {
    type V = ButtonView;

    open spec fn view(&self) -> ButtonView {
        ButtonView { text: self.text@, url: self.url@ }
    }
}

/// The label and link of each button, in order.
pub open spec fn button_views(v: Seq<Button>) -> Seq<ButtonView> {
    v.map_values(|b: Button| b@)
}

/// One button labelled `label` for `url` if it is present, none otherwise.
pub open spec fn optional_button(label: Seq<char>, url: Option<Seq<char>>) -> Seq<ButtonView> {
    match url {
        Some(u) => seq![ButtonView { text: label, url: u }],
        None => Seq::empty(),
    }
}

/// The buttons of an event: "Continue" first, then "Abort", each only when
/// its link is present.
pub open spec fn card_buttons(e: EventView) -> Seq<ButtonView> {
    optional_button("Continue"@, e.continue_url) + optional_button("Abort"@, e.abort_url)
}

fn link_button(label: &str, url: &String) -> (r: Button)
    ensures
        r@ == (ButtonView { text: label@, url: url@ }),
{
    let mut text = String::new();
    text.append(label);
    Button { text, url: url.clone() }
}

/// The action buttons of `event`: "Continue" for its continue link, then
/// "Abort" for its abort link, each only where the link is present.
pub fn create_card_buttons(event: &AMErrorEvent) -> (r: Vec<Button>)
    ensures
        button_views(r@) == card_buttons(event@),
{
    let mut buttons: Vec<Button> = Vec::new();
    if let Some(continue_url) = &event.continue_url {
        buttons.push(link_button("Continue", continue_url));
    }
    let ghost first = buttons@;
    assert(button_views(first) =~= optional_button("Continue"@, event@.continue_url));
    if let Some(abort_url) = &event.abort_url {
        buttons.push(link_button("Abort", abort_url));
    }
    assert(button_views(buttons@) =~= card_buttons(event@));
    buttons
}

/// A complete chat card.
pub struct CardMessage {
    pub text: String,
    pub title: String,
    pub image_url: String,
    pub body: String,
    pub buttons: Vec<Button>,
}

/// The parts of a card as text.
pub struct CardView {
    pub text: Seq<char>,
    pub title: Seq<char>,
    pub image_url: Seq<char>,
    pub body: Seq<char>,
    pub buttons: Seq<ButtonView>,
}

impl View for CardMessage {
    type V = CardView;

    open spec fn view(&self) -> CardView {
        CardView {
            text: self.text@,
            title: self.title@,
            image_url: self.image_url@,
            body: self.body@,
            buttons: button_views(self.buttons@),
        }
    }
}

pub open spec fn card_title() -> Seq<char> {
    "Alert!"@
}

pub open spec fn card_image_url() -> Seq<char> {
    "https://developers.google.com/chat/images/quickstart-app-avatar.png"@
}

/// The card of an event: a `#` call-out, the fixed header, the header
/// message and the buttons.
pub open spec fn card_of(e: EventView) -> CardView {
    CardView {
        text: recipients(e.categories, "#"@),
        title: card_title(),
        image_url: card_image_url(),
        body: event_header(e),
        buttons: card_buttons(e),
    }
}

/// The whole card of `event`: the `#` call-out, the fixed title and image,
/// the header message and the buttons.
pub fn create_card_message(event: &AMErrorEvent) -> (r: CardMessage)
    ensures
        r@ == card_of(event@),
{
    let text = format_recepients(event.categories.as_slice(), "#");
    let body = create_header_message(event);
    let buttons = create_card_buttons(event);
    let mut title = String::new();
    title.append("Alert!");
    let mut image_url = String::new();
    image_url.append("https://developers.google.com/chat/images/quickstart-app-avatar.png");
    CardMessage { text, title, image_url, body, buttons }
}

} // verus!
