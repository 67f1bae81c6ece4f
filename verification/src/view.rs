//! The view projection: a pure function from the application state to a
//! declarative description of the widget column — increment button, counter
//! text, decrement button (without an action while the counter is zero),
//! status text, and the canvas region.

use vstd::prelude::*;
use crate::numfmt::{dec_string, i32_dec_string};
use crate::state::{AppState, Message, MsgModel, StateModel};

verus! {

/// One widget of the declarative column the view produces. A button carries
/// the message it emits when pressed, or no message while it is disabled.
#[derive(Debug, PartialEq, Eq)]
pub enum Widget {
    Button { label: String, width: u64, action: Option<Message> },
    Text { content: String },
    Space { height: u64 },
    Canvas,
}

/// The mathematical model of a `Widget`.
pub ghost enum WidgetModel {
    Button { label: Seq<char>, width: int, action: Option<MsgModel> },
    Text { content: Seq<char> },
    Space { height: int },
    Canvas,
}

impl Widget {
    pub open spec fn model(&self) -> WidgetModel {
        match self {
            Widget::Button { label, width, action } => WidgetModel::Button {
                label: label@,
                width: *width as int,
                action: match action {
                    Some(m) => Some(m.model()),
                    None => None,
                },
            },
            Widget::Text { content } => WidgetModel::Text { content: content@ },
            Widget::Space { height } => WidgetModel::Space { height: *height as int },
            Widget::Canvas => WidgetModel::Canvas,
        }
    }
}

/// The models of a sequence of widgets.
pub open spec fn widget_models(s: Seq<Widget>) -> Seq<WidgetModel> {
    s.map_values(|w: Widget| w.model())
}

/// The status line: the fetched IP origin once the fetch succeeded, a
/// placeholder before that.
pub open spec fn spec_status_text(s: StateModel) -> Seq<char> {
    match s.ip_record {
        Some(origin) => origin,
        None => "Fetching..."@,
    }
}

/// The widget column shown for a state: increment button, the counter as
/// decimal text, decrement button whose action is present exactly when the
/// counter is positive, a spacer, the status text, a spacer, and the canvas.
pub open spec fn spec_view(s: StateModel) -> Seq<WidgetModel> {
    seq![
        WidgetModel::Button {
            label: "Increment"@,
            width: 80,
            action: Some(MsgModel::CounterDelta(1)),
        },
        WidgetModel::Text { content: dec_string(s.counter) },
        WidgetModel::Button {
            label: "Decrement"@,
            width: 80,
            action: if s.counter > 0 {
                Some(MsgModel::CounterDelta(-1))
            } else {
                None
            },
        },
        WidgetModel::Space { height: 20 },
        WidgetModel::Text { content: spec_status_text(s) },
        WidgetModel::Space { height: 20 },
        WidgetModel::Canvas,
    ]
}

impl AppState {
    /// The view projection: reads the state, mutates nothing, and returns
    /// exactly the column `spec_view` describes.
    pub fn view(&self) -> (widgets: Vec<Widget>)
        ensures
            widget_models(widgets@) == spec_view(self.model()),
    {
        let status: String = match &self.ip_record {
            Some(rec) => rec.origin.as_str().to_owned(),
            None => String::from_str("Fetching..."),
        };
        let decrement_action: Option<Message> = if self.counter > 0 {
            Some(Message::CounterDelta(-1))
        } else {
            None
        };
        let widgets: Vec<Widget> = vec![
            Widget::Button {
                label: String::from_str("Increment"),
                width: 80,
                action: Some(Message::CounterDelta(1)),
            },
            Widget::Text { content: i32_dec_string(self.counter) },
            Widget::Button {
                label: String::from_str("Decrement"),
                width: 80,
                action: decrement_action,
            },
            Widget::Space { height: 20 },
            Widget::Text { content: status },
            Widget::Space { height: 20 },
            Widget::Canvas,
        ];
        proof {
            assert(widget_models(widgets@) =~= spec_view(self.model()));
        }
        widgets
    }
}

/// Whether a widget would emit a decrement of the counter when activated.
pub open spec fn emits_decrement(w: WidgetModel) -> bool {
    w matches WidgetModel::Button { action: Some(MsgModel::CounterDelta(d)), .. } && d < 0
}

/// Law: while the counter is zero, no widget of the view carries a decrement
/// action — the decrement control is present but disabled.
pub proof fn lemma_no_decrement_at_zero(s: StateModel)
    requires
        s.counter == 0,
    ensures
        forall|i: int| 0 <= i < spec_view(s).len() ==> !emits_decrement(#[trigger] spec_view(s)[i]),
{
}

} // verus!
