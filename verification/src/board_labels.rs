//! The label picker of a card: which labels it offers, and its keys.
use vstd::prelude::*;
use crate::board_app::{App, Mode, key_index};
use crate::board_keys::{Action, Key};
use crate::board_nav::{has_label_spec, is_detail_of, same_but_mode};
use crate::render::{Label, find_labels, labels_of};
use crate::text::{is_blank, owned, str_eq, str_trim, string_pop, string_push, trim};

verus! {

pub open spec fn label_view(l: Label) -> (Seq<char>, Seq<char>) {
    (l.name@, l.color@)
}

pub open spec fn label_views(ls: Seq<Label>) -> Seq<(Seq<char>, Seq<char>)> {
    ls.map_values(|l: Label| label_view(l))
}

/// Some label of `v` is named `name`.
pub open spec fn has_name(v: Seq<(Seq<char>, Seq<char>)>, name: Seq<char>) -> bool {
    exists|j: int| 0 <= j < v.len() && v[j].0 == name
}

/// `base` followed by each label of `extra` whose name it lacks so far.
pub open spec fn merged(base: Seq<(Seq<char>, Seq<char>)>, extra: Seq<Label>) -> Seq<(Seq<char>, Seq<char>)>
    decreases extra.len(),
{
    if extra.len() == 0 {
        base
    } else {
        let m = merged(base, extra.drop_last());
        if has_name(m, extra.last().name@) {
            m
        } else {
            m.push(label_view(extra.last()))
        }
    }
}

/// The labels the picker offers for card `key`: the recently used ones,
/// then those on the card that are not among them, each name once.
pub open spec fn candidates_spec(app: App, recent: Seq<Label>, key: Seq<char>) -> Seq<(Seq<char>, Seq<char>)> {
    match key_index(app.cards@, key) {
        Some(i) => match labels_of(app.labels@, app.cards@[i].id@) {
            Some(ls) => merged(label_views(recent), ls),
            None => label_views(recent),
        },
        None => label_views(recent),
    }
}

/// What a key does in the label picker of card `card`.
pub open spec fn label_key_ok(old: App, new: App, r: Action, key: Key) -> bool {
    match old.mode {
        Mode::LabelPicker { key: card, input, cursor, candidates } => {
            let n = candidates@.len();
            if key == Key::Esc {
                is_detail_of(new.mode, card@) && new.status == old.status && same_but_mode(new, old) && r is Nothing
            } else if key == Key::Up || key == Key::Down {
                &&& new.mode == (Mode::LabelPicker {
                    key: card,
                    input: input,
                    cursor: if key == Key::Up {
                        if cursor == 0 {
                            0
                        } else {
                            (cursor - 1) as usize
                        }
                    } else if n == 0 {
                        cursor
                    } else if cursor + 1 < n - 1 {
                        (cursor + 1) as usize
                    } else {
                        (n - 1) as usize
                    },
                    candidates: candidates,
                })
                &&& new.status == old.status && same_but_mode(new, old) && r is Nothing
            } else if key == Key::Char(' ') {
                &&& new == old
                &&& if cursor < n {
                    r matches Action::ToggleLabel { key: k, name, on } && k@ == card@ && name@
                        == candidates@[cursor as int].name@ && on == has_label_spec(
                        old,
                        card@,
                        candidates@[cursor as int].name@,
                    )
                } else {
                    r is Nothing
                }
            } else if key == Key::Enter {
                &&& new == old
                &&& if trim(input@).len() == 0 {
                    r is Nothing
                } else {
                    r matches Action::AddLabel { key: k, name, present } && k@ == card@ && name@ == trim(input@)
                        && present == has_label_spec(old, card@, trim(input@))
                }
            } else if key == Key::Backspace || key is Char {
                &&& new.mode matches Mode::LabelPicker { key: k, input: i, cursor: c, candidates: cs } && k
                    == card && c == cursor && cs == candidates && i@ == (if key == Key::Backspace {
                    if input@.len() == 0 {
                        input@
                    } else {
                        input@.drop_last()
                    }
                } else {
                    input@.push(key->Char_0)
                })
                &&& new.status == old.status && same_but_mode(new, old) && r is Nothing
            } else {
                new == old && r is Nothing
            }
        },
        _ => new == old && r is Nothing,
    }
}

fn copy_label(l: &Label) -> (r: Label)
    ensures
        label_view(r) == label_view(*l),
{
    Label { name: l.name.clone(), color: l.color.clone() }
}

fn names_include(v: &Vec<Label>, name: &str) -> (r: bool)
    ensures
        r == has_name(label_views(v@), name@),
{
    let mut j: usize = 0;
    while j < v.len()
        invariant
            j <= v.len(),
            forall|k: int| 0 <= k < j ==> v@[k].name@ != name@,
        decreases v.len() - j,
    {
        if str_eq(v[j].name.as_str(), name) {
            assert(label_views(v@)[j as int].0 == name@);
            return true;
        }
        j = j + 1;
    }
    assert forall|k: int| 0 <= k < label_views(v@).len() implies label_views(v@)[k].0 != name@ by {
        assert(label_views(v@)[k] == label_view(v@[k]));
    }
    false
}

impl App {
    /// The labels the picker offers for card `card_key`, given the recently
    /// used labels `recent`.
    pub fn label_candidates(&self, recent: Vec<Label>, card_key: &str) -> (r: Vec<Label>)
        ensures
            label_views(r@) == candidates_spec(*self, recent@, card_key@),
    {
        let mut out = recent;
        let ghost base = label_views(out@);
        match self.card_by_key(card_key) {
            Some(i) => match find_labels(&self.labels, self.cards[i].id.as_str()) {
                Some(on_card) => {
                    let mut j: usize = 0;
                    while j < on_card.len()
                        invariant
                            j <= on_card.len(),
                            label_views(out@) == merged(base, on_card@.take(j as int)),
                        decreases on_card.len() - j,
                    {
                        assert(on_card@.take(j + 1).drop_last() =~= on_card@.take(j as int));
                        assert(on_card@.take(j + 1).last() == on_card@[j as int]);
                        if !names_include(&out, on_card[j].name.as_str()) {
                            let l = copy_label(&on_card[j]);
                            let ghost before = label_views(out@);
                            out.push(l);
                            assert(label_views(out@) =~= before.push(label_view(on_card@[j as int])));
                        }
                        j = j + 1;
                    }
                    assert(on_card@.take(on_card.len() as int) =~= on_card@);
                    out
                },
                None => out,
            },
            None => out,
        }
    }

    /// Opens the label picker of card `key` on `candidates`, with an empty
    /// input and the cursor on the first label.
    pub fn open_label_picker(&mut self, key: String, candidates: Vec<Label>)
        ensures
            final(self).mode matches Mode::LabelPicker { key: k, input, cursor, candidates: cs } && k == key
                && input@.len() == 0 && cursor == 0 && cs == candidates,
            final(self).status == old(self).status,
            same_but_mode(*final(self), *old(self)),
    {
        self.mode = Mode::LabelPicker { key, input: String::new(), cursor: 0, candidates };
    }

    /// Puts fresh candidates into an open label picker, keeping its cursor
    /// on the list and clearing its input.
    pub fn refresh_label_picker(&mut self, fresh: Vec<Label>)
        ensures
            match old(self).mode {
                Mode::LabelPicker { key, cursor, .. } => final(self).mode matches Mode::LabelPicker {
                    key: k,
                    input,
                    cursor: c,
                    candidates,
                } && k == key && input@.len() == 0 && candidates == fresh && c == (if cursor
                    >= fresh.len() {
                    if fresh.len() == 0 {
                        0
                    } else {
                        (fresh.len() - 1) as usize
                    }
                } else {
                    cursor
                }),
                _ => final(self).mode == old(self).mode,
            },
            final(self).status == old(self).status,
            same_but_mode(*final(self), *old(self)),
    {
        let n = fresh.len();
        match &mut self.mode {
            Mode::LabelPicker { candidates, cursor, input, .. } => {
                *candidates = fresh;
                if *cursor >= n {
                    *cursor = if n == 0 {
                        0
                    } else {
                        n - 1
                    };
                }
                *input = String::new();
            },
            _ => {},
        }
    }

    /// The label picker's keys: Esc goes back to the card; Up and Down move;
    /// Space toggles the label under the cursor; Enter puts the typed label
    /// on the card; Backspace and characters edit the typed label.
    pub fn on_label_key(&mut self, key: Key) -> (r: Action)
        requires
            key == Key::Down ==> (old(self).mode matches Mode::LabelPicker { cursor, .. } ==> cursor
                < usize::MAX),
        ensures
            label_key_ok(*old(self), *final(self), r, key),
    {
        let (card, cursor, n) = match &self.mode {
            Mode::LabelPicker { key, cursor, candidates, .. } => (key.clone(), *cursor, candidates.len()),
            _ => return Action::Nothing,
        };
        match key {
            Key::Esc => {
                self.mode = Mode::Detail { key: card, scroll: 0 };
                Action::Nothing
            },
            Key::Up => {
                match &mut self.mode {
                    Mode::LabelPicker { cursor, .. } => {
                        *cursor = if *cursor == 0 {
                            0
                        } else {
                            *cursor - 1
                        };
                    },
                    _ => {},
                }
                Action::Nothing
            },
            Key::Down => {
                match &mut self.mode {
                    Mode::LabelPicker { cursor, candidates, .. } => {
                        if candidates.len() > 0 {
                            let last = candidates.len() - 1;
                            *cursor = if *cursor + 1 < last {
                                *cursor + 1
                            } else {
                                last
                            };
                        }
                    },
                    _ => {},
                }
                Action::Nothing
            },
            Key::Char(' ') => {
                let name = match &self.mode {
                    Mode::LabelPicker { candidates, .. } => {
                        if cursor < candidates.len() {
                            Some(candidates[cursor].name.clone())
                        } else {
                            None
                        }
                    },
                    _ => None,
                };
                match name {
                    Some(name) => {
                        let on = self.card_has_label(card.as_str(), name.as_str());
                        Action::ToggleLabel { key: card, name, on }
                    },
                    None => Action::Nothing,
                }
            },
            Key::Enter => {
                let typed = match &self.mode {
                    Mode::LabelPicker { input, .. } => {
                        if is_blank(input.as_str()) {
                            None
                        } else {
                            Some(owned(str_trim(input.as_str())))
                        }
                    },
                    _ => None,
                };
                match typed {
                    Some(name) => {
                        let present = self.card_has_label(card.as_str(), name.as_str());
                        Action::AddLabel { key: card, name, present }
                    },
                    None => Action::Nothing,
                }
            },
            Key::Backspace => {
                match &mut self.mode {
                    Mode::LabelPicker { input, .. } => {
                        string_pop(input);
                    },
                    _ => {},
                }
                Action::Nothing
            },
            Key::Char(c) => {
                match &mut self.mode {
                    Mode::LabelPicker { input, .. } => {
                        string_push(input, c);
                    },
                    _ => {},
                }
                Action::Nothing
            },
            _ => Action::Nothing,
        }
    }
}

} // verus!
