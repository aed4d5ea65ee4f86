//! The toast document that shows a notification on Windows.
use vstd::prelude::*;

use crate::actions::{Action, ActionType, ActionTypeView, ActionTypes, ActionView, actions_view};
use crate::models::{attachments_view, AttachmentView, NotificationData};
use crate::xml::{XmlElement, XmlNode};

verus! {

/// An element with the given parts.
pub open spec fn xml_node(
    name: Seq<char>,
    attributes: Seq<(Seq<char>, Seq<char>)>,
    text: Option<Seq<char>>,
    children: Seq<XmlNode>,
) -> XmlNode {
    XmlNode { name, attributes, text, children }
}

/// A `<text>` line, where there is a text.
pub open spec fn text_nodes(o: Option<Seq<char>>) -> Seq<XmlNode> {
    match o {
        Some(t) => seq![xml_node("text"@, Seq::empty(), Some(t), Seq::empty())],
        None => Seq::empty(),
    }
}

/// The image that replaces the application logo, where there is an icon.
pub open spec fn icon_nodes(o: Option<Seq<char>>) -> Seq<XmlNode> {
    match o {
        Some(i) => seq![
            xml_node(
                "image"@,
                seq![("placement"@, "appLogoOverride"@), ("src"@, i)],
                None,
                Seq::empty(),
            ),
        ],
        None => Seq::empty(),
    }
}

/// The image of an attachment: the first one is the hero image, the
/// others are shown inline.
pub open spec fn attachment_node(url: Seq<char>, first: bool) -> XmlNode {
    xml_node(
        "image"@,
        if first {
            seq![("placement"@, "hero"@), ("src"@, url)]
        } else {
            seq![("src"@, url)]
        },
        None,
        Seq::empty(),
    )
}

/// The images of all attachments, in order.
pub open spec fn attachment_nodes(a: Seq<AttachmentView>) -> Seq<XmlNode> {
    Seq::new(a.len(), |i: int| attachment_node(a[i].url, i == 0))
}

/// The `<binding>` element: title, body and large body lines, then the
/// icon, then the attachments.
pub open spec fn binding_node(d: NotificationData) -> XmlNode {
    xml_node(
        "binding"@,
        seq![("template"@, "ToastGeneric"@)],
        None,
        text_nodes(d.title.deep_view()) + text_nodes(d.body.deep_view()) + text_nodes(
            d.large_body.deep_view(),
        ) + icon_nodes(d.icon.deep_view()) + attachment_nodes(attachments_view(d.attachments@)),
    )
}

/// The text box of an action that takes a typed reply.
pub open spec fn input_node(a: ActionView) -> XmlNode {
    xml_node(
        "input"@,
        seq![("id"@, a.id), ("type"@, "text"@)] + match a.input_placeholder {
            Some(p) => seq![("placeHolderContent"@, p)],
            None => Seq::empty(),
        },
        None,
        Seq::empty(),
    )
}

/// The text boxes of the actions that take a typed reply, in order.
pub open spec fn input_nodes(s: Seq<ActionView>) -> Seq<XmlNode>
    decreases s.len(),
{
    if s.len() == 0 {
        Seq::empty()
    } else {
        input_nodes(s.drop_last()) + if s.last().input {
            seq![input_node(s.last())]
        } else {
            Seq::empty()
        }
    }
}

/// The label of an action's button: for a text reply its button title
/// where it has one, else the action's title.
pub open spec fn button_content(a: ActionView) -> Seq<char> {
    if a.input {
        match a.input_button_title {
            Some(t) => t,
            None => a.title,
        }
    } else {
        a.title
    }
}

/// The button of an action.
pub open spec fn action_node(a: ActionView) -> XmlNode {
    xml_node(
        "action"@,
        seq![
            ("content"@, button_content(a)),
            ("arguments"@, a.id),
            ("activationType"@, if a.foreground {
                "foreground"@
            } else {
                "background"@
            }),
        ] + if a.input {
            seq![("hint-inputId"@, a.id)]
        } else {
            Seq::empty()
        },
        None,
        Seq::empty(),
    )
}

/// The buttons of all actions, in order.
pub open spec fn action_nodes(s: Seq<ActionView>) -> Seq<XmlNode> {
    s.map_values(|a: ActionView| action_node(a))
}

/// The `<actions>` element of an action type: every text box comes before
/// every button, as the toast schema requires.
pub open spec fn actions_node(t: ActionTypeView) -> XmlNode {
    xml_node("actions"@, Seq::empty(), None, input_nodes(t.actions) + action_nodes(t.actions))
}

/// The action type that a notification refers to, where it is registered.
pub open spec fn selected_action_type(
    id: Option<Seq<char>>,
    types: Map<Seq<char>, ActionTypeView>,
) -> Option<ActionTypeView> {
    match id {
        Some(k) => if types.contains_key(k) {
            Some(types[k])
        } else {
            None
        },
        None => None,
    }
}

/// The `<audio>` element: silent, or a custom sound, or none.
pub open spec fn audio_nodes(silent: bool, sound: Option<Seq<char>>) -> Seq<XmlNode> {
    if silent {
        seq![xml_node("audio"@, seq![("silent"@, "true"@)], None, Seq::empty())]
    } else {
        match sound {
            Some(s) => seq![xml_node("audio"@, seq![("src"@, s)], None, Seq::empty())],
            None => Seq::empty(),
        }
    }
}

/// The toast document of a notification, given the registered action types.
pub open spec fn toast_node(d: NotificationData, types: Map<Seq<char>, ActionTypeView>) -> XmlNode {
    xml_node(
        "toast"@,
        Seq::empty(),
        None,
        seq![xml_node("visual"@, Seq::empty(), None, seq![binding_node(d)])] + match selected_action_type(
            d.action_type_id.deep_view(),
            types,
        ) {
            Some(t) => seq![actions_node(t)],
            None => Seq::empty(),
        } + audio_nodes(d.silent, d.sound.deep_view()),
    )
}

/// No attribute of the element places it as the hero image.
pub open spec fn not_hero(e: XmlNode) -> bool {
    !e.attributes.contains(("placement"@, "hero"@))
}

proof fn lemma_head_not_hero(d: NotificationData)
    ensures
        forall|j: int|
            0 <= j < (text_nodes(d.title.deep_view()) + text_nodes(d.body.deep_view()) + text_nodes(
                d.large_body.deep_view(),
            ) + icon_nodes(d.icon.deep_view())).len() ==> #[trigger] not_hero(
                (text_nodes(d.title.deep_view()) + text_nodes(d.body.deep_view()) + text_nodes(
                    d.large_body.deep_view(),
                ) + icon_nodes(d.icon.deep_view()))[j],
            ),
{
    reveal_strlit("placement");
    reveal_strlit("hero");
    reveal_strlit("src");
    reveal_strlit("appLogoOverride");
    let hero = ("placement"@, "hero"@);
    let t1 = text_nodes(d.title.deep_view());
    let t2 = text_nodes(d.body.deep_view());
    let t3 = text_nodes(d.large_body.deep_view());
    let ic = icon_nodes(d.icon.deep_view());
    assert forall|j: int| 0 <= j < t1.len() implies #[trigger] not_hero(t1[j]) by {
        assert(t1[j].attributes.len() == 0);
    }
    assert forall|j: int| 0 <= j < t2.len() implies #[trigger] not_hero(t2[j]) by {
        assert(t2[j].attributes.len() == 0);
    }
    assert forall|j: int| 0 <= j < t3.len() implies #[trigger] not_hero(t3[j]) by {
        assert(t3[j].attributes.len() == 0);
    }
    assert forall|j: int| 0 <= j < ic.len() implies #[trigger] not_hero(ic[j]) by {
        let at = ic[j].attributes;
        if at.contains(hero) {
            let k = choose|k: int| 0 <= k < at.len() && at[k] == hero;
            if k == 0 {
                assert(at[0].1.len() != hero.1.len());
            } else {
                assert(at[1].0.len() != hero.0.len());
            }
        }
    }
    let h = t1 + t2 + t3 + ic;
    assert forall|j: int| 0 <= j < h.len() implies #[trigger] not_hero(h[j]) by {
        if j < t1.len() {
            assert(h[j] == t1[j]);
        } else if j < t1.len() + t2.len() {
            assert(h[j] == t2[j - t1.len()]);
        } else if j < t1.len() + t2.len() + t3.len() {
            assert(h[j] == t3[j - t1.len() - t2.len()]);
        } else {
            assert(h[j] == ic[j - t1.len() - t2.len() - t3.len()]);
        }
    }
}

/// The attachments end the binding, one image each in order: the first
/// attachment's image alone is placed as the hero image, every later one
/// carries only its source. No other element of the binding is a hero
/// image.
pub proof fn lemma_first_attachment_alone_is_hero(d: NotificationData)
    ensures
        ({
            let c = binding_node(d).children;
            let a = attachments_view(d.attachments@);
            &&& a.len() <= c.len()
            &&& forall|k: int|
                0 <= k < a.len() ==> #[trigger] c[c.len() - a.len() + k] == xml_node(
                    "image"@,
                    if k == 0 {
                        seq![("placement"@, "hero"@), ("src"@, a[k].url)]
                    } else {
                        seq![("src"@, a[k].url)]
                    },
                    None,
                    Seq::empty(),
                )
            &&& forall|i: int, j: int|
                0 <= i < c.len() && 0 <= j < c.len() && !not_hero(c[i]) && !not_hero(c[j]) ==> i
                    == j
        }),
{
    reveal_strlit("placement");
    reveal_strlit("hero");
    reveal_strlit("src");
    let c = binding_node(d).children;
    let a = attachments_view(d.attachments@);
    let head = text_nodes(d.title.deep_view()) + text_nodes(d.body.deep_view()) + text_nodes(
        d.large_body.deep_view(),
    ) + icon_nodes(d.icon.deep_view());
    let tail = attachment_nodes(a);
    assert(c == head + tail);
    lemma_head_not_hero(d);
    let hero = ("placement"@, "hero"@);
    assert forall|k: int| 0 <= k < a.len() implies #[trigger] c[c.len() - a.len() + k] == xml_node(
        "image"@,
        if k == 0 {
            seq![("placement"@, "hero"@), ("src"@, a[k].url)]
        } else {
            seq![("src"@, a[k].url)]
        },
        None,
        Seq::empty(),
    ) by {
        assert(c[head.len() + k] == tail[k]);
    }
    assert forall|i: int| 0 <= i < c.len() && !not_hero(c[i]) implies i == head.len() by {
        if i < head.len() {
            assert(c[i] == head[i]);
            assert(not_hero(head[i]));
        } else {
            let k = i - head.len();
            assert(c[i] == tail[k]);
            if k > 0 {
                let at = tail[k].attributes;
                assert(at == seq![("src"@, a[k].url)]);
                let m = choose|m: int| 0 <= m < at.len() && at[m] == hero;
                assert(at[m].0.len() != hero.0.len());
            }
        }
    }
}

/// Appends a `<text>` line holding `t`.
fn append_text(binding: &mut XmlElement, t: &Option<String>)
    ensures
        final(binding).node() == (XmlNode {
            children: old(binding).node().children + text_nodes(t.deep_view()),
            ..old(binding).node()
        }),
{
    match t {
        Some(s) => {
            let mut text = XmlElement::new("text");
            text.set_inner_text(s.as_str());
            assert(text.node() == xml_node("text"@, Seq::empty(), Some(s@), Seq::empty()));
            binding.append_child(text);
            assert(final(binding).node().children =~= old(binding).node().children + text_nodes(
                t.deep_view(),
            ));
        },
        None => {
            assert(old(binding).node().children + text_nodes(t.deep_view()) =~= old(
                binding,
            ).node().children);
        },
    }
}

/// The `<binding>` element of a notification.
fn build_binding(data: &NotificationData) -> (r: XmlElement)
    ensures
        r.node() == binding_node(*data),
{
    let mut binding = XmlElement::new("binding");
    binding.set_attribute("template", "ToastGeneric");
    assert(binding.node().children =~= Seq::<XmlNode>::empty());
    append_text(&mut binding, &data.title);
    append_text(&mut binding, &data.body);
    append_text(&mut binding, &data.large_body);
    match &data.icon {
        Some(icon) => {
            let mut image = XmlElement::new("image");
            image.set_attribute("placement", "appLogoOverride");
            image.set_attribute("src", icon.as_str());
            assert(image.node().attributes =~= seq![("placement"@, "appLogoOverride"@), ("src"@, icon@)]);
            let ghost before = binding.node().children;
            binding.append_child(image);
            assert(binding.node().children =~= before + icon_nodes(data.icon.deep_view()));
        },
        None => {
            assert(binding.node().children =~= binding.node().children + icon_nodes(data.icon.deep_view()));
        },
    }
    let ghost head = binding.node().children;
    assert(head =~= text_nodes(data.title.deep_view()) + text_nodes(data.body.deep_view())
        + text_nodes(data.large_body.deep_view()) + icon_nodes(data.icon.deep_view()));
    let ghost atts = attachments_view(data.attachments@);
    let mut i: usize = 0;
    while i < data.attachments.len()
        invariant
            i <= data.attachments.len(),
            atts == attachments_view(data.attachments@),
            binding.node() == (XmlNode {
                children: head + attachment_nodes(atts).take(i as int),
                ..binding_node(*data)
            }),
        decreases data.attachments.len() - i,
    {
        let mut image = XmlElement::new("image");
        if i == 0 {
            image.set_attribute("placement", "hero");
        }
        image.set_attribute("src", data.attachments[i].url().as_str());
        let ghost before = binding.node().children;
        binding.append_child(image);
        assert(attachment_nodes(atts).take(i + 1) =~= attachment_nodes(atts).take(i as int).push(
            attachment_node(atts[i as int].url, i == 0),
        ));
        assert(image.node() == attachment_node(atts[i as int].url, i == 0)) by {
            assert(image.node().attributes =~= attachment_node(
                atts[i as int].url,
                i == 0,
            ).attributes);
        }
        i = i + 1;
    }
    assert(attachment_nodes(atts).take(data.attachments.len() as int) =~= attachment_nodes(atts));
    binding
}

/// The text box of an action.
fn build_input(action: &Action) -> (r: XmlElement)
    ensures
        r.node() == input_node(action@),
{
    let mut input = XmlElement::new("input");
    input.set_attribute("id", action.id());
    input.set_attribute("type", "text");
    match action.input_placeholder() {
        Some(p) => input.set_attribute("placeHolderContent", p),
        None => {},
    }
    assert(input.node().attributes =~= input_node(action@).attributes);
    input
}

/// The button of an action.
fn build_button(action: &Action) -> (r: XmlElement)
    ensures
        r.node() == action_node(action@),
{
    let mut button = XmlElement::new("action");
    let content = if action.input() {
        match action.input_button_title() {
            Some(t) => t,
            None => action.title(),
        }
    } else {
        action.title()
    };
    button.set_attribute("content", content);
    button.set_attribute("arguments", action.id());
    let activation_type = if action.foreground() {
        "foreground"
    } else {
        "background"
    };
    button.set_attribute("activationType", activation_type);
    if action.input() {
        button.set_attribute("hint-inputId", action.id());
    }
    assert(button.node().attributes =~= action_node(action@).attributes);
    button
}

/// The `<actions>` element of an action type.
fn build_actions(action_type: &ActionType) -> (r: XmlElement)
    ensures
        r.node() == actions_node(action_type@),
{
    let mut actions = XmlElement::new("actions");
    let list = action_type.actions();
    let ghost s = actions_view(list@);
    let mut i: usize = 0;
    while i < list.len()
        invariant
            i <= list.len(),
            s == actions_view(list@),
            s == action_type@.actions,
            actions.node() == (XmlNode {
                children: input_nodes(s.take(i as int)),
                ..actions_node(action_type@)
            }),
        decreases list.len() - i,
    {
        let ghost before = actions.node().children;
        if list[i].input() {
            actions.append_child(build_input(&list[i]));
        }
        proof {
            let t = s.take(i + 1);
            assert(t.drop_last() =~= s.take(i as int));
            assert(t.last() == list@[i as int]@);
            assert(actions.node().children =~= input_nodes(t));
        }
        i = i + 1;
    }
    assert(s.take(list.len() as int) =~= s);
    let ghost inputs = input_nodes(s);
    let mut j: usize = 0;
    while j < list.len()
        invariant
            j <= list.len(),
            s == actions_view(list@),
            s == action_type@.actions,
            inputs == input_nodes(s),
            actions.node() == (XmlNode {
                children: inputs + action_nodes(s).take(j as int),
                ..actions_node(action_type@)
            }),
        decreases list.len() - j,
    {
        actions.append_child(build_button(&list[j]));
        assert(action_nodes(s).take(j + 1) =~= action_nodes(s).take(j as int).push(
            action_node(list@[j as int]@),
        ));
        j = j + 1;
    }
    assert(action_nodes(s).take(list.len() as int) =~= action_nodes(s));
    actions
}

/// The toast document of a notification, given the registered action types:
/// a `<visual>` with the binding, then the `<actions>` of the notification's
/// action type where that type is registered, then the `<audio>`.
pub fn build_toast_xml(data: &NotificationData, action_types: &ActionTypes) -> (r: XmlElement)
    ensures
        r.node() == toast_node(*data, action_types@),
{
    let mut toast = XmlElement::new("toast");
    let mut visual = XmlElement::new("visual");
    visual.append_child(build_binding(data));
    toast.append_child(visual);
    let ghost c1 = toast.node().children;
    match &data.action_type_id {
        Some(id) => match action_types.get(id.as_str()) {
            Some(action_type) => toast.append_child(build_actions(action_type)),
            None => {},
        },
        None => {},
    }
    let ghost c2 = toast.node().children;
    assert(c2 =~= c1 + match selected_action_type(data.action_type_id.deep_view(), action_types@) {
        Some(t) => seq![actions_node(t)],
        None => Seq::<XmlNode>::empty(),
    });
    if data.silent {
        let mut audio = XmlElement::new("audio");
        audio.set_attribute("silent", "true");
        toast.append_child(audio);
    } else {
        match &data.sound {
            Some(sound) => {
                let mut audio = XmlElement::new("audio");
                audio.set_attribute("src", sound.as_str());
                toast.append_child(audio);
            },
            None => {},
        }
    }
    assert(toast.node().children =~= toast_node(*data, action_types@).children);
    toast
}

/// The number of actions of the list that take a typed reply.
pub open spec fn input_count(s: Seq<ActionView>) -> nat
    decreases s.len(),
{
    if s.len() == 0 {
        0
    } else {
        input_count(s.drop_last()) + if s.last().input {
            1nat
        } else {
            0nat
        }
    }
}

proof fn lemma_input_nodes(s: Seq<ActionView>)
    ensures
        input_nodes(s).len() == input_count(s),
        input_count(s) <= s.len(),
        forall|i: int| 0 <= i < input_nodes(s).len() ==> (#[trigger] input_nodes(s)[i]).name == "input"@,
    decreases s.len(),
{
    if s.len() > 0 {
        lemma_input_nodes(s.drop_last());
    }
}

/// In the `<actions>` element of an action type, the first elements are the
/// text boxes, one per action that takes a typed reply; after them come the
/// buttons, one per action, in the order of the actions.
pub proof fn lemma_actions_layout(t: ActionTypeView)
    ensures
        ({
            let c = actions_node(t).children;
            let k = input_count(t.actions);
            &&& k <= t.actions.len()
            &&& c.len() == k + t.actions.len()
            &&& forall|i: int| 0 <= i < k ==> (#[trigger] c[i]).name == "input"@
            &&& forall|j: int|
                0 <= j < t.actions.len() ==> #[trigger] c[k + j] == action_node(t.actions[j])
        }),
{
    lemma_input_nodes(t.actions);
    let c = actions_node(t).children;
    let k = input_count(t.actions);
    assert forall|j: int| 0 <= j < t.actions.len() implies #[trigger] c[k + j] == action_node(
        t.actions[j],
    ) by {
        assert(c[k + j] == action_nodes(t.actions)[j]);
    }
    assert forall|i: int| 0 <= i < k implies (#[trigger] c[i]).name == "input"@ by {
        assert(c[i] == input_nodes(t.actions)[i]);
    }
}

} // verus!
