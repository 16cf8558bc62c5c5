//! Heading anchors and the table of contents.
//!
//! A single pass over the upstream Markdown event stream rewrites every
//! heading into anchored HTML and aggregates a table of contents.  Each
//! upstream event yields exactly one instruction for the downstream
//! stream: emit an empty text placeholder, emit synthesized HTML, or
//! pass the event through unchanged.  The transform is a step machine:
//! `TOCGenerator::next` consumes one event, and the whole-stream
//! behaviour is the fold of `step_state` over the event sequence.

use vstd::prelude::*;

use crate::errors::TocError;
use crate::slug::{generate_id, slug};

verus! {

/// One heading recorded in the table of contents.
#[derive(Debug, Clone, PartialEq, Eq)]
pub struct TocEntry {
    /// The heading text.
    pub title: String,
    /// The id used for linking to this heading.
    pub id: String,
}

/// Mathematical image of a [`TocEntry`].
pub ghost struct EntryV {
    pub title: Seq<char>,
    pub id: Seq<char>,
}

impl View for TocEntry {
    type V = EntryV;

    open spec fn view(&self) -> EntryV {
        EntryV { title: self.title@, id: self.id@ }
    }
}

impl TocEntry {
    pub fn new(title: String, id: String) -> (r: Self)
        ensures
            r.title == title,
            r.id == id,
    {
        Self { title, id }
    }

    /// The URL fragment pointing at this entry: `#` followed by the id.
    pub fn permalink(&self) -> (r: String)
        ensures
            r@ == "#"@ + self.id@,
    {
        let mut s = String::from_str("#");
        s.append(self.id.as_str());
        s
    }
}

/// The entries of one bucket, viewed mathematically.
pub open spec fn entries_view(s: Seq<TocEntry>) -> Seq<EntryV> {
    s.map_values(|e: TocEntry| e@)
}

/// The table of contents: one ordered bucket per heading level, order
/// equal to document encounter order.  Ids are not deduplicated.
#[derive(Debug, Clone, PartialEq, Eq)]
pub struct Toc {
    pub h1: Vec<TocEntry>,
    pub h2: Vec<TocEntry>,
    pub h3: Vec<TocEntry>,
    pub h4: Vec<TocEntry>,
    pub h5: Vec<TocEntry>,
    pub h6: Vec<TocEntry>,
}

impl View for Toc {
    type V = Seq<Seq<EntryV>>;

    open spec fn view(&self) -> Seq<Seq<EntryV>> {
        seq![
            entries_view(self.h1@),
            entries_view(self.h2@),
            entries_view(self.h3@),
            entries_view(self.h4@),
            entries_view(self.h5@),
            entries_view(self.h6@),
        ]
    }
}

/// Every bucket of `t` is empty.
pub open spec fn toc_is_empty(t: Seq<Seq<EntryV>>) -> bool {
    forall|i: int| 0 <= i < t.len() ==> t[i].len() == 0
}

impl Toc {
    pub fn new() -> (r: Self)
        ensures
            r@ == Seq::new(6, |i: int| Seq::<EntryV>::empty()),
    {
        let r = Toc {
            h1: Vec::new(),
            h2: Vec::new(),
            h3: Vec::new(),
            h4: Vec::new(),
            h5: Vec::new(),
            h6: Vec::new(),
        };
        proof {
            assert(r@ =~~= Seq::new(6, |i: int| Seq::<EntryV>::empty()));
        }
        r
    }

    /// Append an entry to the bucket of the given level, keeping every
    /// other bucket as it was.
    pub fn push_entry(&mut self, level: u8, e: TocEntry)
        requires
            1 <= level <= 6,
        ensures
            final(self)@ == old(self)@.update(level - 1, old(self)@[level - 1].push(e@)),
    {
        let ghost ev = e@;
        let ghost older = self@;
        if level == 1 {
            self.h1.push(e);
        } else if level == 2 {
            self.h2.push(e);
        } else if level == 3 {
            self.h3.push(e);
        } else if level == 4 {
            self.h4.push(e);
        } else if level == 5 {
            self.h5.push(e);
        } else {
            self.h6.push(e);
        }
        proof {
            assert(self@ =~~= older.update(level - 1, older[level - 1].push(ev)));
        }
    }

    /// Whether the document had no headings at all.
    pub fn is_empty(&self) -> (r: bool)
        ensures
            r <==> toc_is_empty(self@),
    {
        let r = self.h1.len() == 0 && self.h2.len() == 0 && self.h3.len() == 0 && self.h4.len()
            == 0 && self.h5.len() == 0 && self.h6.len() == 0;
        proof {
            if r {
                assert forall|i: int| 0 <= i < self@.len() implies self@[i].len() == 0 by {
                    assert(self@[0].len() == self.h1@.len());
                    assert(self@[1].len() == self.h2@.len());
                    assert(self@[2].len() == self.h3@.len());
                    assert(self@[3].len() == self.h4@.len());
                    assert(self@[4].len() == self.h5@.len());
                    assert(self@[5].len() == self.h6@.len());
                }
            }
        }
        r
    }

    /// The entries of one level, 1 through 6.
    pub fn bucket(&self, level: u8) -> (r: &Vec<TocEntry>)
        requires
            1 <= level <= 6,
        ensures
            entries_view(r@) == self@[level - 1],
    {
        if level == 1 {
            &self.h1
        } else if level == 2 {
            &self.h2
        } else if level == 3 {
            &self.h3
        } else if level == 4 {
            &self.h4
        } else if level == 5 {
            &self.h5
        } else {
            &self.h6
        }
    }
}

/// One upstream Markdown event, as far as the transform reads it.  A
/// heading start may carry an explicit id; text carries its fragment; a
/// heading end carries its level; everything else is opaque.
#[derive(Debug, Clone, PartialEq, Eq)]
pub enum MdEvent {
    HeadingStart { id: Option<String> },
    Text { text: String },
    HeadingEnd { level: u8 },
    Other,
}

/// Mathematical image of an [`MdEvent`].
pub ghost enum MdEventV {
    HeadingStart { id: Option<Seq<char>> },
    Text { text: Seq<char> },
    HeadingEnd { level: u8 },
    Other,
}

impl View for MdEvent {
    type V = MdEventV;

    open spec fn view(&self) -> MdEventV {
        match self {
            MdEvent::HeadingStart { id } => MdEventV::HeadingStart {
                id: match id {
                    Some(s) => Some(s@),
                    None => None,
                },
            },
            MdEvent::Text { text } => MdEventV::Text { text: text@ },
            MdEvent::HeadingEnd { level } => MdEventV::HeadingEnd { level: *level },
            MdEvent::Other => MdEventV::Other,
        }
    }
}

/// The instruction the transform emits for one upstream event: replace
/// it by an empty text placeholder, by synthesized HTML, or keep it.
#[derive(Debug, Clone, PartialEq, Eq)]
pub enum MdAction {
    EmptyText,
    Html { html: String },
    PassThrough,
}

/// Mathematical image of an [`MdAction`].
pub ghost enum ActionV {
    EmptyText,
    Html { html: Seq<char> },
    PassThrough,
}

impl View for MdAction {
    type V = ActionV;

    open spec fn view(&self) -> ActionV {
        match self {
            MdAction::EmptyText => ActionV::EmptyText,
            MdAction::Html { html } => ActionV::Html { html: html@ },
            MdAction::PassThrough => ActionV::PassThrough,
        }
    }
}

/// The transform's state: the per-heading accumulator (active flag,
/// captured explicit id, last text fragment) and the table of contents
/// gathered so far.
pub ghost struct GenV {
    pub active: bool,
    pub explicit_id: Option<Seq<char>>,
    pub text: Seq<char>,
    pub toc: Seq<Seq<EntryV>>,
}

/// The state before any event: no heading open, empty accumulator,
/// empty table of contents.
pub open spec fn init_gen() -> GenV {
    GenV {
        active: false,
        explicit_id: None,
        text: Seq::empty(),
        toc: Seq::new(6, |i: int| Seq::<EntryV>::empty()),
    }
}

/// The tag name of a heading level: `h1` through `h6`.
pub open spec fn level_tag(level: u8) -> Seq<char> {
    if level == 1 {
        "h1"@
    } else if level == 2 {
        "h2"@
    } else if level == 3 {
        "h3"@
    } else if level == 4 {
        "h4"@
    } else if level == 5 {
        "h5"@
    } else {
        "h6"@
    }
}

/// The anchored markup a finished heading is replaced by.
pub open spec fn heading_html(level: u8, id: Seq<char>, text: Seq<char>) -> Seq<char> {
    "<"@ + level_tag(level) + " id=\""@ + id + "\">"@ + text
        + "<a hidden=\"\" class=\"anchor\" aria-hidden=\"true\" href=\"#"@ + id + "\">#</a></"@
        + level_tag(level) + ">"@
}

/// The id a finished heading receives: the captured explicit id if one
/// was present, else the slug of the heading text.
pub open spec fn entry_id(g: GenV) -> Seq<char> {
    match g.explicit_id {
        Some(id) => id,
        None => slug(g.text),
    }
}

/// Whether the event is acceptable in state `g`.  Only a heading-end
/// can be refused: outside a heading it is structurally malformed, and
/// its level must name one of the six buckets.
pub open spec fn step_ok(g: GenV, ev: MdEventV) -> bool {
    match ev {
        MdEventV::HeadingEnd { level } => g.active && 1 <= level <= 6,
        _ => true,
    }
}

/// The error a refused heading-end yields.
pub open spec fn step_err(g: GenV, ev: MdEventV) -> TocError {
    if !g.active {
        TocError::UnmatchedHeadingEnd
    } else {
        TocError::InvalidHeadingLevel
    }
}

/// The state after one event.  A heading start opens a fresh
/// accumulator; a text fragment inside a heading overwrites (not
/// appends to) the accumulated text; a heading end appends the entry to
/// its level's bucket and resets the accumulator; other events leave
/// the state alone.
pub open spec fn step_state(g: GenV, ev: MdEventV) -> GenV {
    match ev {
        MdEventV::HeadingStart { id } => GenV {
            active: true,
            explicit_id: id,
            text: Seq::empty(),
            toc: g.toc,
        },
        MdEventV::Text { text } => if g.active {
            GenV { active: g.active, explicit_id: g.explicit_id, text, toc: g.toc }
        } else {
            g
        },
        MdEventV::HeadingEnd { level } => if step_ok(g, ev) {
            GenV {
                active: false,
                explicit_id: None,
                text: Seq::empty(),
                toc: g.toc.update(
                    level - 1,
                    g.toc[level - 1].push(EntryV { title: g.text, id: entry_id(g) }),
                ),
            }
        } else {
            g
        },
        MdEventV::Other => g,
    }
}

/// The instruction emitted for one event: heading sub-events are
/// suppressed to empty text, a heading end becomes the anchored markup,
/// everything else passes through.
pub open spec fn step_action(g: GenV, ev: MdEventV) -> ActionV {
    match ev {
        MdEventV::HeadingStart { .. } => ActionV::EmptyText,
        MdEventV::Text { .. } => if g.active {
            ActionV::EmptyText
        } else {
            ActionV::PassThrough
        },
        MdEventV::HeadingEnd { level } => ActionV::Html {
            html: heading_html(level, entry_id(g), g.text),
        },
        MdEventV::Other => ActionV::PassThrough,
    }
}

fn level_tag_exec(level: u8) -> (r: &'static str)
    requires
        1 <= level <= 6,
    ensures
        r@ == level_tag(level),
{
    if level == 1 {
        "h1"
    } else if level == 2 {
        "h2"
    } else if level == 3 {
        "h3"
    } else if level == 4 {
        "h4"
    } else if level == 5 {
        "h5"
    } else {
        "h6"
    }
}

fn render_heading(level: u8, id: &String, text: &String) -> (r: String)
    requires
        1 <= level <= 6,
    ensures
        r@ == heading_html(level, id@, text@),
{
    let tag = level_tag_exec(level);
    let mut s = String::from_str("<");
    s.append(tag);
    s.append(" id=\"");
    s.append(id.as_str());
    s.append("\">");
    s.append(text.as_str());
    s.append("<a hidden=\"\" class=\"anchor\" aria-hidden=\"true\" href=\"#");
    s.append(id.as_str());
    s.append("\">#</a></");
    s.append(tag);
    s.append(">");
    proof {
        assert(s@ =~= heading_html(level, id@, text@));
    }
    s
}

/// The single-pass transform over the upstream event stream.
pub struct TOCGenerator {
    active: bool,
    explicit_id: Option<String>,
    text: String,
    toc: Toc,
}

impl View for TOCGenerator {
    type V = GenV;

    closed spec fn view(&self) -> GenV {
        GenV {
            active: self.active,
            explicit_id: match self.explicit_id {
                Some(s) => Some(s@),
                None => None,
            },
            text: self.text@,
            toc: self.toc@,
        }
    }
}

impl TOCGenerator {
    pub fn new() -> (r: Self)
        ensures
            r@ == init_gen(),
    {
        let r = TOCGenerator { active: false, explicit_id: None, text: String::new(), toc: Toc::new() };
        proof {
            assert(r@.text =~= init_gen().text);
        }
        r
    }

    /// Consume one upstream event and say what to emit downstream.  On
    /// a structurally malformed heading-end the state is left unchanged
    /// and the error says why.
    pub fn next(&mut self, ev: &MdEvent) -> (r: Result<MdAction, TocError>)
        ensures
            step_ok(old(self)@, ev@) ==> ({
                &&& r matches Ok(a) && a@ == step_action(old(self)@, ev@)
                &&& final(self)@ == step_state(old(self)@, ev@)
            }),
            !step_ok(old(self)@, ev@) ==> ({
                &&& *final(self) == *old(self)
                &&& r == Result::<MdAction, TocError>::Err(step_err(old(self)@, ev@))
            }),
    {
        match ev {
            MdEvent::HeadingStart { id } => {
                self.active = true;
                self.explicit_id = match id {
                    Some(s) => Some(s.clone()),
                    None => None,
                };
                self.text = String::new();
                proof {
                    assert(self@.text =~= step_state(old(self)@, ev@).text);
                }
                Ok(MdAction::EmptyText)
            },
            MdEvent::Text { text } => {
                if self.active {
                    self.text = text.clone();
                    Ok(MdAction::EmptyText)
                } else {
                    Ok(MdAction::PassThrough)
                }
            },
            MdEvent::HeadingEnd { level } => {
                let level = *level;
                if !self.active {
                    Err(TocError::UnmatchedHeadingEnd)
                } else if level < 1 || level > 6 {
                    Err(TocError::InvalidHeadingLevel)
                } else {
                    self.active = false;
                    let id = match &self.explicit_id {
                        Some(s) => s.clone(),
                        None => generate_id(self.text.as_str()),
                    };
                    self.explicit_id = None;
                    let title = self.text.clone();
                    self.text = String::new();
                    let html = render_heading(level, &id, &title);
                    self.toc.push_entry(level, TocEntry::new(title, id));
                    proof {
                        assert(self@.text =~= step_state(old(self)@, ev@).text);
                        assert(self@.toc =~= step_state(old(self)@, ev@).toc);
                    }
                    Ok(MdAction::Html { html })
                }
            },
            MdEvent::Other => Ok(MdAction::PassThrough),
        }
    }

    /// The finished table of contents, valid once the stream is fully
    /// drained: absent exactly when the document had no headings.
    pub fn get_toc(self) -> (r: Option<Toc>)
        ensures
            toc_is_empty(self@.toc) ==> r is None,
            !toc_is_empty(self@.toc) ==> (r matches Some(t) && t@ == self@.toc),
    {
        if self.toc.is_empty() {
            None
        } else {
            Some(self.toc)
        }
    }
}

/// The state after a whole event sequence, folded from `g`.
pub open spec fn run_from(g: GenV, evs: Seq<MdEventV>) -> GenV
    decreases evs.len(),
{
    if evs.len() == 0 {
        g
    } else {
        step_state(run_from(g, evs.drop_last()), evs.last())
    }
}

/// The state after a whole event sequence, from the initial state.
pub open spec fn run_state(evs: Seq<MdEventV>) -> GenV {
    run_from(init_gen(), evs)
}

/// Every event of the sequence is acceptable in the state it meets.
pub open spec fn run_ok(evs: Seq<MdEventV>) -> bool {
    forall|i: int| 0 <= i < evs.len() ==> step_ok(#[trigger] run_state(evs.take(i)), evs[i])
}

/// The instruction emitted for each event of the sequence.
pub open spec fn run_actions(evs: Seq<MdEventV>) -> Seq<ActionV> {
    Seq::new(evs.len(), |i: int| step_action(run_state(evs.take(i)), evs[i]))
}

/// The views of a vector of events.
pub open spec fn evs_view(events: Seq<MdEvent>) -> Seq<MdEventV> {
    events.map_values(|e: MdEvent| e@)
}

/// The views of a vector of actions.
pub open spec fn actions_view(acts: Seq<MdAction>) -> Seq<ActionV> {
    acts.map_values(|a: MdAction| a@)
}

/// `i` is the first position whose event the transform refuses.
pub open spec fn first_bad(evs: Seq<MdEventV>, i: int) -> bool {
    &&& 0 <= i < evs.len()
    &&& !step_ok(run_state(evs.take(i)), evs[i])
    &&& forall|j: int| 0 <= j < i ==> step_ok(#[trigger] run_state(evs.take(j)), evs[j])
}

/// Transform a whole event stream: the emitted instructions, one per
/// event — the downstream stream has the same cardinality as the
/// upstream one — and the finished table of contents.  Fails exactly
/// when some event is structurally malformed, with the error of the
/// first such event.
pub fn transform_events(events: &Vec<MdEvent>) -> (r: Result<(Vec<MdAction>, Option<Toc>), TocError>)
    ensures
        run_ok(evs_view(events@)) ==> ({
            let evs = evs_view(events@);
            &&& r matches Ok(p) && p.0@.len() == events@.len()
            &&& r matches Ok(p) && actions_view(p.0@) == run_actions(evs)
            &&& r matches Ok(p) && (toc_is_empty(run_state(evs).toc) ==> p.1 is None)
            &&& r matches Ok(p) && (!toc_is_empty(run_state(evs).toc) ==> (p.1 matches Some(t)
                && t@ == run_state(evs).toc))
        }),
        !run_ok(evs_view(events@)) ==> ({
            let evs = evs_view(events@);
            exists|i: int|
                first_bad(evs, i) && r == Result::<(Vec<MdAction>, Option<Toc>), TocError>::Err(
                    step_err(run_state(evs.take(i)), evs[i]),
                )
        }),
{
    let ghost evs = evs_view(events@);
    let mut gen = TOCGenerator::new();
    let mut actions: Vec<MdAction> = Vec::new();
    let mut i: usize = 0;
    proof {
        assert(evs.take(0) =~= Seq::<MdEventV>::empty());
    }
    while i < events.len()
        invariant
            i <= events.len(),
            evs == evs_view(events@),
            gen@ == run_state(evs.take(i as int)),
            actions@.len() == i,
            forall|k: int|
                0 <= k < i ==> actions_view(actions@)[k] == run_actions(evs)[k],
            forall|j: int| 0 <= j < i ==> step_ok(#[trigger] run_state(evs.take(j)), evs[j]),
        decreases events.len() - i,
    {
        proof {
            assert(evs[i as int] == events@[i as int]@);
        }
        match gen.next(&events[i]) {
            Ok(a) => {
                proof {
                    assert(evs.take(i + 1).drop_last() =~= evs.take(i as int));
                    assert(evs.take(i + 1).last() == evs[i as int]);
                }
                actions.push(a);
                proof {
                    assert forall|k: int| 0 <= k < i + 1 implies actions_view(actions@)[k]
                        == run_actions(evs)[k] by {
                        if k < i {
                            assert(actions_view(actions@)[k] == actions@[k]@);
                        }
                    }
                }
                i += 1;
            },
            Err(e) => {
                proof {
                    assert(first_bad(evs, i as int));
                }
                return Err(e);
            },
        }
    }
    proof {
        assert(evs.take(events.len() as int) =~= evs);
        assert(run_ok(evs));
        assert(actions_view(actions@) =~= run_actions(evs));
    }
    let toc = gen.get_toc();
    Ok((actions, toc))
}

/// A heading that carries an explicit id keeps it verbatim, whatever
/// its text: the entry appended on heading-end holds exactly that id.
pub proof fn lemma_explicit_id_kept(g: GenV, level: u8, id: Seq<char>)
    requires
        g.toc.len() == 6,
        g.active,
        g.explicit_id == Some(id),
        1 <= level <= 6,
    ensures
        ({
            let g2 = step_state(g, MdEventV::HeadingEnd { level });
            &&& g2.toc[level - 1].last() == EntryV { title: g.text, id }
            &&& g2.toc[level - 1].len() == g.toc[level - 1].len() + 1
        }),
{
}

/// Two headings with the same text and no explicit id, arriving one
/// after the other at the same level, receive the same derived id, and
/// both entries stand in the bucket: ids are not deduplicated.
pub proof fn lemma_duplicate_headings(g: GenV, level: u8, text: Seq<char>)
    requires
        g.toc.len() == 6,
        1 <= level <= 6,
    ensures
        ({
            let evs = seq![
                MdEventV::HeadingStart { id: None },
                MdEventV::Text { text },
                MdEventV::HeadingEnd { level },
                MdEventV::HeadingStart { id: None },
                MdEventV::Text { text },
                MdEventV::HeadingEnd { level },
            ];
            let e = EntryV { title: text, id: slug(text) };
            run_from(g, evs).toc == g.toc.update(level - 1, g.toc[level - 1].push(e).push(e))
        }),
{
    let e0 = MdEventV::HeadingStart { id: None };
    let e1 = MdEventV::Text { text };
    let e2 = MdEventV::HeadingEnd { level };
    let evs = seq![e0, e1, e2, e0, e1, e2];
    let e = EntryV { title: text, id: slug(text) };
    assert(evs.drop_last() =~= seq![e0, e1, e2, e0, e1]);
    assert(seq![e0, e1, e2, e0, e1].drop_last() =~= seq![e0, e1, e2, e0]);
    assert(seq![e0, e1, e2, e0].drop_last() =~= seq![e0, e1, e2]);
    assert(seq![e0, e1, e2].drop_last() =~= seq![e0, e1]);
    assert(seq![e0, e1].drop_last() =~= seq![e0]);
    assert(seq![e0].drop_last() =~= Seq::<MdEventV>::empty());
    assert(run_from(g, Seq::<MdEventV>::empty()) == g);
    let g1 = step_state(g, e0);
    let g2 = step_state(g1, e1);
    let g3 = step_state(g2, e2);
    let g4 = step_state(g3, e0);
    let g5 = step_state(g4, e1);
    let g6 = step_state(g5, e2);
    assert(run_from(g, seq![e0]) == g1);
    assert(run_from(g, seq![e0, e1]) == g2);
    assert(run_from(g, seq![e0, e1, e2]) == g3);
    assert(run_from(g, seq![e0, e1, e2, e0]) == g4);
    assert(run_from(g, seq![e0, e1, e2, e0, e1]) == g5);
    assert(run_from(g, evs) == g6);
    assert(g3.toc == g.toc.update(level - 1, g.toc[level - 1].push(e)));
    assert(g6.toc =~= g.toc.update(level - 1, g.toc[level - 1].push(e).push(e))) by {
        assert(g3.toc[level - 1] == g.toc[level - 1].push(e));
        assert(g6.toc == g3.toc.update(level - 1, g3.toc[level - 1].push(e)));
    }
}

/// The per-heading accumulator never spans two headings: an accepted
/// heading-end consumes it, leaving no active heading, no captured id
/// and no text behind.
pub proof fn lemma_accumulator_consumed(g: GenV, level: u8)
    requires
        g.active,
        1 <= level <= 6,
    ensures
        ({
            let g2 = step_state(g, MdEventV::HeadingEnd { level });
            &&& !g2.active
            &&& g2.explicit_id is None
            &&& g2.text == Seq::<char>::empty()
        }),
{
}

/// Buckets grow in encounter order: a run of events only appends
/// entries to level buckets, never reordering or removing what an
/// earlier part of the document put there.
pub proof fn lemma_buckets_grow(g: GenV, evs: Seq<MdEventV>, l: int)
    requires
        g.toc.len() == 6,
        0 <= l < g.toc.len(),
    ensures
        run_from(g, evs).toc.len() == g.toc.len(),
        g.toc[l].is_prefix_of(run_from(g, evs).toc[l]),
    decreases evs.len(),
{
    if evs.len() == 0 {
        assert(g.toc[l].is_prefix_of(g.toc[l]));
    } else {
        lemma_buckets_grow(g, evs.drop_last(), l);
        let h = run_from(g, evs.drop_last());
        let s = step_state(h, evs.last());
        assert(s.toc.len() == h.toc.len() && h.toc[l].is_prefix_of(s.toc[l])) by {
            match evs.last() {
                MdEventV::HeadingEnd { level } => {
                    if step_ok(h, evs.last()) {
                        if level - 1 == l {
                            assert(s.toc[l] == h.toc[l].push(
                                EntryV { title: h.text, id: entry_id(h) },
                            ));
                            assert(h.toc[l].is_prefix_of(s.toc[l])) by {
                                assert(s.toc[l].subrange(0, h.toc[l].len() as int) =~= h.toc[l]);
                            }
                        } else {
                            assert(s.toc[l] == h.toc[l]);
                            assert(h.toc[l].is_prefix_of(s.toc[l]));
                        }
                    } else {
                        assert(h.toc[l].is_prefix_of(s.toc[l]));
                    }
                },
                _ => {
                    assert(s.toc == h.toc);
                    assert(h.toc[l].is_prefix_of(s.toc[l]));
                },
            }
        }
        assert(g.toc[l].is_prefix_of(s.toc[l])) by {
            assert(g.toc[l].is_prefix_of(h.toc[l]));
            assert(s.toc[l].subrange(0, g.toc[l].len() as int) =~= g.toc[l]);
        }
    }
}

/// A document without heading-end events gathers no table of contents.
pub proof fn lemma_no_headings_no_toc(evs: Seq<MdEventV>)
    requires
        forall|i: int| 0 <= i < evs.len() ==> !(#[trigger] evs[i] matches MdEventV::HeadingEnd { .. }),
    ensures
        toc_is_empty(run_state(evs).toc),
    decreases evs.len(),
{
    if evs.len() == 0 {
        assert(toc_is_empty(init_gen().toc));
    } else {
        let t = evs.drop_last();
        assert(forall|i: int|
            0 <= i < t.len() ==> !(#[trigger] t[i] matches MdEventV::HeadingEnd { .. })) by {
            assert(forall|i: int| 0 <= i < t.len() ==> t[i] == evs[i]);
        }
        lemma_no_headings_no_toc(t);
        assert(run_state(evs) == step_state(run_state(t), evs.last()));
        assert(step_state(run_state(t), evs.last()).toc == run_state(t).toc);
    }
}

} // verus!
