//! Interactive notification actions and the registry of action types.
use vstd::prelude::*;

use crate::models::{borrows_opt, clone_opt, opt_as_str, str_equals};

verus! {

/// A button (or a text reply) offered on a notification.
#[derive(Debug)]
pub struct Action {
    pub id: String,
    pub title: String,
    pub requires_authentication: bool,
    pub foreground: bool,
    pub destructive: bool,
    pub input: bool,
    pub input_button_title: Option<String>,
    pub input_placeholder: Option<String>,
}

/// The value of an [`Action`].
pub struct ActionView {
    pub id: Seq<char>,
    pub title: Seq<char>,
    pub requires_authentication: bool,
    pub foreground: bool,
    pub destructive: bool,
    pub input: bool,
    pub input_button_title: Option<Seq<char>>,
    pub input_placeholder: Option<Seq<char>>,
}

impl View for Action {
    type V = ActionView;

    open spec fn view(&self) -> ActionView {
        ActionView {
            id: self.id@,
            title: self.title@,
            requires_authentication: self.requires_authentication,
            foreground: self.foreground,
            destructive: self.destructive,
            input: self.input,
            input_button_title: self.input_button_title.deep_view(),
            input_placeholder: self.input_placeholder.deep_view(),
        }
    }
}

impl Action {
    /// A plain button: no authentication, not destructive, no text input.
    pub fn new(id: String, title: String, foreground: bool) -> (r: Self)
        ensures
            r@ == (ActionView {
                id: id@,
                title: title@,
                requires_authentication: false,
                foreground,
                destructive: false,
                input: false,
                input_button_title: None,
                input_placeholder: None,
            }),
    {
        Action {
            id,
            title,
            requires_authentication: false,
            foreground,
            destructive: false,
            input: false,
            input_button_title: None,
            input_placeholder: None,
        }
    }

    pub fn id(&self) -> (r: &str)
        ensures
            r@ == self@.id,
    {
        self.id.as_str()
    }

    pub fn title(&self) -> (r: &str)
        ensures
            r@ == self@.title,
    {
        self.title.as_str()
    }

    pub fn foreground(&self) -> (r: bool)
        ensures
            r == self@.foreground,
    {
        self.foreground
    }

    pub fn input(&self) -> (r: bool)
        ensures
            r == self@.input,
    {
        self.input
    }

    pub fn input_button_title(&self) -> (r: Option<&str>)
        ensures
            borrows_opt(r, self.input_button_title),
    {
        opt_as_str(&self.input_button_title)
    }

    pub fn input_placeholder(&self) -> (r: Option<&str>)
        ensures
            borrows_opt(r, self.input_placeholder),
    {
        opt_as_str(&self.input_placeholder)
    }
}

impl Clone for Action {
    fn clone(&self) -> (r: Self)
        ensures
            r@ == self@,
    {
        Action {
            id: self.id.clone(),
            title: self.title.clone(),
            requires_authentication: self.requires_authentication,
            foreground: self.foreground,
            destructive: self.destructive,
            input: self.input,
            input_button_title: clone_opt(&self.input_button_title),
            input_placeholder: clone_opt(&self.input_placeholder),
        }
    }
}

/// The views of a list of actions.
pub open spec fn actions_view(v: Seq<Action>) -> Seq<ActionView> {
    v.map_values(|a: Action| a@)
}

/// A named set of actions that notifications refer to by id.
#[derive(Debug)]
pub struct ActionType {
    pub id: String,
    pub actions: Vec<Action>,
    pub hidden_previews_body_placeholder: Option<String>,
    pub custom_dismiss_action: bool,
    pub allow_in_car_play: bool,
    pub hidden_previews_show_title: bool,
    pub hidden_previews_show_subtitle: bool,
}

/// The value of an [`ActionType`].
pub struct ActionTypeView {
    pub id: Seq<char>,
    pub actions: Seq<ActionView>,
    pub hidden_previews_body_placeholder: Option<Seq<char>>,
    pub custom_dismiss_action: bool,
    pub allow_in_car_play: bool,
    pub hidden_previews_show_title: bool,
    pub hidden_previews_show_subtitle: bool,
}

impl View for ActionType {
    type V = ActionTypeView;

    open spec fn view(&self) -> ActionTypeView {
        ActionTypeView {
            id: self.id@,
            actions: actions_view(self.actions@),
            hidden_previews_body_placeholder: self.hidden_previews_body_placeholder.deep_view(),
            custom_dismiss_action: self.custom_dismiss_action,
            allow_in_car_play: self.allow_in_car_play,
            hidden_previews_show_title: self.hidden_previews_show_title,
            hidden_previews_show_subtitle: self.hidden_previews_show_subtitle,
        }
    }
}

impl ActionType {
    /// An action type with the given actions and every option off.
    pub fn new(id: String, actions: Vec<Action>) -> (r: Self)
        ensures
            r@ == (ActionTypeView {
                id: id@,
                actions: actions_view(actions@),
                hidden_previews_body_placeholder: None,
                custom_dismiss_action: false,
                allow_in_car_play: false,
                hidden_previews_show_title: false,
                hidden_previews_show_subtitle: false,
            }),
    {
        ActionType {
            id,
            actions,
            hidden_previews_body_placeholder: None,
            custom_dismiss_action: false,
            allow_in_car_play: false,
            hidden_previews_show_title: false,
            hidden_previews_show_subtitle: false,
        }
    }

    pub fn id(&self) -> (r: &str)
        ensures
            r@ == self@.id,
    {
        self.id.as_str()
    }

    pub fn actions(&self) -> (r: &[Action])
        ensures
            actions_view(r@) == self@.actions,
    {
        self.actions.as_slice()
    }
}

impl Clone for ActionType {
    fn clone(&self) -> (r: Self)
        ensures
            r@ == self@,
    {
        let mut actions: Vec<Action> = Vec::new();
        let mut i: usize = 0;
        while i < self.actions.len()
            invariant
                i <= self.actions.len(),
                actions_view(actions@) == actions_view(self.actions@).take(i as int),
            decreases self.actions.len() - i,
        {
            let a = self.actions[i].clone();
            let ghost before = actions@;
            actions.push(a);
            assert(actions_view(actions@) =~= actions_view(before).push(a@));
            assert(actions_view(self.actions@).take(i + 1) =~= actions_view(self.actions@).take(
                i as int,
            ).push(actions_view(self.actions@)[i as int]));
            i = i + 1;
        }
        assert(actions_view(self.actions@).take(self.actions.len() as int) =~= actions_view(
            self.actions@,
        ));
        ActionType {
            id: self.id.clone(),
            actions,
            hidden_previews_body_placeholder: clone_opt(&self.hidden_previews_body_placeholder),
            custom_dismiss_action: self.custom_dismiss_action,
            allow_in_car_play: self.allow_in_car_play,
            hidden_previews_show_title: self.hidden_previews_show_title,
            hidden_previews_show_subtitle: self.hidden_previews_show_subtitle,
        }
    }
}

// ---------------------------------------------------------------------------
// The registry of action types
// ---------------------------------------------------------------------------
/// The action types of a list, keyed by id; a later type replaces an
/// earlier one with the same id.
pub open spec fn types_map(s: Seq<ActionTypeView>) -> Map<Seq<char>, ActionTypeView>
    decreases s.len(),
{
    if s.len() == 0 {
        Map::empty()
    } else {
        types_map(s.drop_last()).insert(s.last().id, s.last())
    }
}

/// No two action types of the list share an id.
pub open spec fn ids_unique(s: Seq<ActionTypeView>) -> bool {
    forall|i: int, j: int| 0 <= i < j < s.len() ==> s[i].id != s[j].id
}

/// The views of a list of action types.
pub open spec fn types_view(v: Seq<ActionType>) -> Seq<ActionTypeView> {
    v.map_values(|t: ActionType| t@)
}

/// Registered action types, keyed by their id.
#[derive(Debug)]
pub struct ActionTypes {
    types: Vec<ActionType>,
}

impl View for ActionTypes {
    type V = Map<Seq<char>, ActionTypeView>;

    closed spec fn view(&self) -> Map<Seq<char>, ActionTypeView> {
        types_map(types_view(self.types@))
    }
}

proof fn lemma_types_map_dom(s: Seq<ActionTypeView>)
    ensures
        forall|k: Seq<char>|
            #[trigger] types_map(s).contains_key(k) <==> exists|i: int|
                0 <= i < s.len() && s[i].id == k,
        types_map(s).dom().finite(),
    decreases s.len(),
{
    if s.len() > 0 {
        lemma_types_map_dom(s.drop_last());
        assert forall|k: Seq<char>| #[trigger]
            types_map(s).contains_key(k) implies exists|i: int| 0 <= i < s.len() && s[i].id == k by {
            if k == s.last().id {
                assert(s[s.len() - 1].id == k);
            } else {
                let i = choose|i: int| 0 <= i < s.drop_last().len() && s.drop_last()[i].id == k;
                assert(s[i].id == k);
            }
        }
        assert forall|k: Seq<char>|
            (exists|i: int| 0 <= i < s.len() && s[i].id == k) implies #[trigger] types_map(
            s,
        ).contains_key(k) by {
            let i = choose|i: int| 0 <= i < s.len() && s[i].id == k;
            if i < s.len() - 1 {
                assert(s.drop_last()[i].id == k);
            }
        }
    }
}

proof fn lemma_types_map_index(s: Seq<ActionTypeView>, i: int)
    requires
        ids_unique(s),
        0 <= i < s.len(),
    ensures
        types_map(s).contains_key(s[i].id),
        types_map(s)[s[i].id] == s[i],
    decreases s.len(),
{
    if i < s.len() - 1 {
        assert(s.drop_last()[i] == s[i]);
        lemma_types_map_index(s.drop_last(), i);
        assert(s.last().id != s[i].id);
    }
}

proof fn lemma_types_map_update(s: Seq<ActionTypeView>, i: int, t: ActionTypeView)
    requires
        ids_unique(s),
        0 <= i < s.len(),
        s[i].id == t.id,
    ensures
        types_map(s.update(i, t)) == types_map(s).insert(t.id, t),
    decreases s.len(),
{
    let u = s.update(i, t);
    if i == s.len() - 1 {
        assert(u.drop_last() =~= s.drop_last());
        assert(types_map(u) =~= types_map(s).insert(t.id, t));
    } else {
        assert(u.drop_last() =~= s.drop_last().update(i, t));
        lemma_types_map_update(s.drop_last(), i, t);
        assert(s.last().id != t.id);
        assert(types_map(u) =~= types_map(s).insert(t.id, t));
    }
}

proof fn lemma_types_map_len(s: Seq<ActionTypeView>)
    requires
        ids_unique(s),
    ensures
        types_map(s).len() == s.len(),
    decreases s.len(),
{
    if s.len() > 0 {
        lemma_types_map_len(s.drop_last());
        lemma_types_map_dom(s.drop_last());
        assert(!types_map(s.drop_last()).contains_key(s.last().id));
    }
}

/// Where an action type with the id `id` stands in `types`.
fn index_of(types: &Vec<ActionType>, id: &str) -> (r: Option<usize>)
    ensures
        match r {
            Some(i) => i < types@.len() && types_view(types@)[i as int].id == id@,
            None => forall|j: int| 0 <= j < types@.len() ==> types_view(types@)[j].id != id@,
        },
{
    let mut i: usize = 0;
    while i < types.len()
        invariant
            i <= types.len(),
            forall|j: int| 0 <= j < i ==> types_view(types@)[j].id != id@,
        decreases types.len() - i,
    {
        if str_equals(types[i].id.as_str(), id) {
            return Some(i);
        }
        i = i + 1;
    }
    None
}

impl ActionTypes {
    /// No two registered action types share an id.
    #[verifier::type_invariant]
    spec fn ids_are_unique(&self) -> bool {
        ids_unique(types_view(self.types@))
    }

    /// No action type registered.
    pub fn new() -> (r: Self)
        ensures
            r@ == Map::<Seq<char>, ActionTypeView>::empty(),
    {
        let types: Vec<ActionType> = Vec::new();
        assert(types_view(types@) =~= Seq::<ActionTypeView>::empty());
        ActionTypes { types }
    }

    /// Registers `action_type` under its id, replacing a type with the same id.
    pub fn insert(&mut self, action_type: ActionType)
        ensures
            final(self)@ == old(self)@.insert(action_type@.id, action_type@),
    {
        proof {
            use_type_invariant(&*self);
        }
        let mut types: Vec<ActionType> = Vec::new();
        assert(types_view(types@) =~= Seq::<ActionTypeView>::empty());
        std::mem::swap(&mut types, &mut self.types);
        let ghost s = types_view(types@);
        let ghost t = action_type@;
        match index_of(&types, action_type.id.as_str()) {
            Some(i) => {
                types.set(i, action_type);
                proof {
                    assert(types_view(types@) =~= s.update(i as int, t));
                    lemma_types_map_update(s, i as int, t);
                    assert forall|a: int, b: int|
                        0 <= a < b < types_view(types@).len() implies types_view(types@)[a].id
                        != types_view(types@)[b].id by {
                        assert(s[a].id == types_view(types@)[a].id);
                        assert(s[b].id == types_view(types@)[b].id);
                    }
                }
            },
            None => {
                types.push(action_type);
                proof {
                    let n = types_view(types@);
                    assert(n =~= s.push(t));
                    assert(n.drop_last() =~= s);
                }
            },
        }
        self.types = types;
    }

    /// The action type registered under `id`.
    pub fn get(&self, id: &str) -> (r: Option<&ActionType>)
        ensures
            match r {
                Some(t) => self@.contains_key(id@) && t@ == self@[id@],
                None => !self@.contains_key(id@),
            },
    {
        proof {
            use_type_invariant(self);
        }
        match index_of(&self.types, id) {
            Some(i) => {
                proof {
                    lemma_types_map_index(types_view(self.types@), i as int);
                }
                Some(&self.types[i])
            },
            None => {
                proof {
                    lemma_types_map_dom(types_view(self.types@));
                }
                None
            },
        }
    }

    /// Whether an action type is registered under `id`.
    pub fn contains_key(&self, id: &str) -> (r: bool)
        ensures
            r == self@.contains_key(id@),
    {
        self.get(id).is_some()
    }

    /// The number of registered action types.
    pub fn len(&self) -> (r: usize)
        ensures
            r == self@.len(),
    {
        proof {
            use_type_invariant(self);
            lemma_types_map_len(types_view(self.types@));
        }
        self.types.len()
    }
}

impl Clone for ActionTypes {
    fn clone(&self) -> (r: Self)
        ensures
            r@ == self@,
    {
        proof {
            use_type_invariant(self);
        }
        let mut types: Vec<ActionType> = Vec::new();
        let mut i: usize = 0;
        while i < self.types.len()
            invariant
                i <= self.types.len(),
                types_view(types@) == types_view(self.types@).take(i as int),
            decreases self.types.len() - i,
        {
            let t = self.types[i].clone();
            let ghost before = types@;
            types.push(t);
            assert(types_view(types@) =~= types_view(before).push(t@));
            assert(types_view(self.types@).take(i + 1) =~= types_view(self.types@).take(
                i as int,
            ).push(types_view(self.types@)[i as int]));
            i = i + 1;
        }
        assert(types_view(self.types@).take(self.types.len() as int) =~= types_view(self.types@));
        ActionTypes { types }
    }
}

} // verus!
