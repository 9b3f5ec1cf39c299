use vstd::prelude::*;

verus! {

/// A failure notification for one run of a workflow.
pub struct AMErrorEvent {
    pub workflow: String,
    pub exc_id: String,
    pub categories: Vec<String>,
    pub message: String,
    pub continue_url: Option<String>,
    pub abort_url: Option<String>,
}

/// The contents of an `AMErrorEvent` as plain text values.
pub struct EventView {
    pub workflow: Seq<char>,
    pub exc_id: Seq<char>,
    pub categories: Seq<Seq<char>>,
    pub message: Seq<char>,
    pub continue_url: Option<Seq<char>>,
    pub abort_url: Option<Seq<char>>,
}

/// The text of each string, in order.
pub open spec fn texts(v: Seq<String>) -> Seq<Seq<char>> {
    v.map_values(|s: String| s@)
}

/// The text of the string, if there is one.
pub open spec fn opt_text(o: Option<String>) -> Option<Seq<char>> {
    match o {
        Some(s) => Some(s@),
        None => None,
    }
}

impl View for AMErrorEvent {
    type V = EventView;

    open spec fn view(&self) -> EventView {
        EventView {
            workflow: self.workflow@,
            exc_id: self.exc_id@,
            categories: texts(self.categories@),
            message: self.message@,
            continue_url: opt_text(self.continue_url),
            abort_url: opt_text(self.abort_url),
        }
    }
}

impl AMErrorEvent {
    /// An event with the given fields.
    pub fn new(
        workflow: String,
        exc_id: String,
        categories: Vec<String>,
        message: String,
        continue_url: Option<String>,
        abort_url: Option<String>,
    ) -> (r: AMErrorEvent)
        ensures
            r.workflow == workflow,
            r.exc_id == exc_id,
            r.categories == categories,
            r.message == message,
            r.continue_url == continue_url,
            r.abort_url == abort_url,
    {
        AMErrorEvent { workflow, exc_id, categories, message, continue_url, abort_url }
    }
}

/// What an invocation reports back after the card was delivered.
pub struct Response {
    pub req_id: String,
    pub message: String,
}

} // verus!
