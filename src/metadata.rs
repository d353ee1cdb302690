//! Collecting metadata for new descriptions: four answers per description,
//! with a way to skip one description and a way to stop altogether.
use vstd::prelude::*;
use crate::reconcile::texts;

verus! {

/// What one prompt came back with.
pub enum PromptOutcome {
    /// The answer to the question asked.
    Text(String),
    /// Leave the current description without a record and go to the next.
    SkipOne,
    /// Stop; records already completed are kept.
    AbortAll,
}

/// The four pieces of information asked for each description, in order.
#[derive(Clone, Copy, Debug, PartialEq, Eq, Structural)]
pub enum Field {
    Primary,
    Secondary,
    Tertiary,
    Additional,
}

pub open spec fn field_index(f: Field) -> nat {
    match f {
        Field::Primary => 0,
        Field::Secondary => 1,
        Field::Tertiary => 2,
        Field::Additional => 3,
    }
}

/// Metadata of one description, ready to be stored.
#[derive(Clone, Debug, PartialEq, Eq)]
pub struct UploadDescription {
    pub description: String,
    pub primary_information: String,
    pub secondary_information: String,
    pub tertiary_information: String,
    pub additional_information: String,
}

/// The mathematical content of an `UploadDescription`.
pub struct MetadataView {
    pub description: Seq<char>,
    pub primary: Seq<char>,
    pub secondary: Seq<char>,
    pub tertiary: Seq<char>,
    pub additional: Seq<char>,
}

impl View for UploadDescription {
    type V = MetadataView;

    open spec fn view(&self) -> MetadataView {
        MetadataView {
            description: self.description@,
            primary: self.primary_information@,
            secondary: self.secondary_information@,
            tertiary: self.tertiary_information@,
            additional: self.additional_information@,
        }
    }
}

pub open spec fn metadata_view(s: Seq<UploadDescription>) -> Seq<MetadataView> {
    s.map_values(|m: UploadDescription| m@)
}

/// The record of description `d` with its four answers `a`.
pub open spec fn completed(d: Seq<char>, a: Seq<Seq<char>>) -> MetadataView {
    MetadataView { description: d, primary: a[0], secondary: a[1], tertiary: a[2], additional: a[3] }
}

/// Records completed when the descriptions `pending` are asked about in
/// order, the first of them already holding `answers`, and the prompts come
/// back with `outcomes`.
pub open spec fn collect_run(pending: Seq<Seq<char>>, answers: Seq<Seq<char>>, outcomes: Seq<PromptOutcome>) -> Seq<
    MetadataView,
>
    decreases outcomes.len(),
{
    if pending.len() == 0 || outcomes.len() == 0 {
        Seq::empty()
    } else {
        match outcomes[0] {
            PromptOutcome::AbortAll => Seq::empty(),
            PromptOutcome::SkipOne => collect_run(pending.drop_first(), Seq::empty(), outcomes.drop_first()),
            PromptOutcome::Text(s) => if answers.len() + 1 >= 4 {
                seq![completed(pending[0], answers.push(s@))] + collect_run(
                    pending.drop_first(),
                    Seq::empty(),
                    outcomes.drop_first(),
                )
            } else {
                collect_run(pending, answers.push(s@), outcomes.drop_first())
            },
        }
    }
}

/// State of a collection: descriptions not yet finished, answers given for
/// the first of them, records completed, and whether it was stopped.
pub struct CollectorView {
    pub pending: Seq<Seq<char>>,
    pub answers: Seq<Seq<char>>,
    pub collected: Seq<MetadataView>,
    pub aborted: bool,
}

pub open spec fn finished(st: CollectorView) -> bool {
    st.aborted || st.pending.len() == 0
}

/// State after one prompt of an unfinished collection came back with `o`.
pub open spec fn step(st: CollectorView, o: PromptOutcome) -> CollectorView {
    match o {
        PromptOutcome::AbortAll => CollectorView { aborted: true, ..st },
        PromptOutcome::SkipOne => CollectorView {
            pending: st.pending.drop_first(),
            answers: Seq::empty(),
            ..st
        },
        PromptOutcome::Text(s) => if st.answers.len() + 1 >= 4 {
            CollectorView {
                pending: st.pending.drop_first(),
                answers: Seq::empty(),
                collected: st.collected.push(completed(st.pending[0], st.answers.push(s@))),
                aborted: false,
            }
        } else {
            CollectorView { answers: st.answers.push(s@), ..st }
        },
    }
}

/// Records a collection ends with when its remaining prompts come back with `outcomes`.
pub open spec fn outcome_of(st: CollectorView, outcomes: Seq<PromptOutcome>) -> Seq<MetadataView> {
    st.collected + if st.aborted {
        Seq::empty()
    } else {
        collect_run(st.pending, st.answers, outcomes)
    }
}

/// Taking one step and then the rest ends where taking all of them at once does.
pub proof fn lemma_step_then_rest(st: CollectorView, o: PromptOutcome, rest: Seq<PromptOutcome>)
    requires
        !finished(st),
        st.answers.len() < 4,
    ensures
        outcome_of(step(st, o), rest) == outcome_of(st, seq![o] + rest),
{
    let all = seq![o] + rest;
    assert(all.drop_first() =~= rest);
    assert(all[0] == o);
    match o {
        PromptOutcome::AbortAll => {
            assert(outcome_of(step(st, o), rest) =~= st.collected);
            assert(outcome_of(st, all) =~= st.collected);
        },
        PromptOutcome::SkipOne => {},
        PromptOutcome::Text(s) => {
            if st.answers.len() + 1 >= 4 {
                let m = completed(st.pending[0], st.answers.push(s@));
                let tail = collect_run(st.pending.drop_first(), Seq::empty(), rest);
                assert(st.collected.push(m) + tail =~= st.collected + (seq![m] + tail));
            }
        },
    }
}

/// A collection in progress.
pub struct MetadataCollector {
    pending: Vec<String>,
    next: usize,
    answers: Vec<String>,
    collected: Vec<UploadDescription>,
    aborted: bool,
}

impl View for MetadataCollector {
    type V = CollectorView;

    closed spec fn view(&self) -> CollectorView {
        CollectorView {
            pending: texts(self.pending@).skip(self.next as int),
            answers: texts(self.answers@),
            collected: metadata_view(self.collected@),
            aborted: self.aborted,
        }
    }
}

impl MetadataCollector {
    pub closed spec fn wf(&self) -> bool {
        &&& self.next <= self.pending@.len()
        &&& self.answers@.len() < 4
    }

    /// A collection over these descriptions, in this order.
    pub fn new(pending: Vec<String>) -> (r: Self)
        ensures
            r.wf(),
            r@ == (CollectorView {
                pending: texts(pending@),
                answers: Seq::empty(),
                collected: Seq::empty(),
                aborted: false,
            }),
    {
        let r = MetadataCollector {
            pending,
            next: 0,
            answers: Vec::new(),
            collected: Vec::new(),
            aborted: false,
        };
        assert(r@.pending =~= texts(r.pending@));
        assert(r@.answers =~= Seq::<Seq<char>>::empty());
        assert(r@.collected =~= Seq::<MetadataView>::empty());
        r
    }

    /// Whether no question is left to ask.
    pub fn is_done(&self) -> (r: bool)
        requires
            self.wf(),
        ensures
            r == finished(self@),
    {
        self.aborted || self.next >= self.pending.len()
    }

    /// The description being asked about.
    pub fn current_description(&self) -> (r: &String)
        requires
            self.wf(),
            !finished(self@),
        ensures
            r@ == self@.pending[0],
    {
        &self.pending[self.next]
    }

    /// The piece of information being asked for.
    pub fn current_field(&self) -> (r: Field)
        requires
            self.wf(),
        ensures
            field_index(r) == self@.answers.len(),
    {
        let n = self.answers.len();
        if n == 0 {
            Field::Primary
        } else if n == 1 {
            Field::Secondary
        } else if n == 2 {
            Field::Tertiary
        } else {
            Field::Additional
        }
    }

    /// Takes what the current prompt came back with.
    pub fn answer(&mut self, outcome: &PromptOutcome)
        requires
            old(self).wf(),
            !finished(old(self)@),
        ensures
            final(self).wf(),
            final(self)@ == step(old(self)@, *outcome),
    {
        let ghost st = self@;
        let n = self.pending.len();
        assert(st.pending.len() == n - self.next);
        match outcome {
            PromptOutcome::AbortAll => {
                self.aborted = true;
            },
            PromptOutcome::SkipOne => {
                self.next = self.next + 1;
                self.answers = Vec::new();
                assert(self@.pending =~= st.pending.drop_first());
                assert(self@.answers =~= Seq::<Seq<char>>::empty());
            },
            PromptOutcome::Text(s) => {
                if self.answers.len() + 1 >= 4 {
                    let d = self.pending[self.next].clone();
                    let m = UploadDescription {
                        description: d,
                        primary_information: self.answers[0].clone(),
                        secondary_information: self.answers[1].clone(),
                        tertiary_information: self.answers[2].clone(),
                        additional_information: s.clone(),
                    };
                    let ghost before = self.collected@;
                    self.collected.push(m);
                    self.next = self.next + 1;
                    self.answers = Vec::new();
                    assert(st.answers.push(s@) =~= seq![m.primary_information@, m.secondary_information@, m.tertiary_information@, s@]);
                    assert(metadata_view(self.collected@) =~= metadata_view(before).push(m@));
                    assert(self@.pending =~= st.pending.drop_first());
                    assert(self@.answers =~= Seq::<Seq<char>>::empty());
                } else {
                    self.answers.push(s.clone());
                    assert(self@.answers =~= st.answers.push(s@));
                }
            },
        }
    }

    /// The records completed so far.
    pub fn into_records(self) -> (r: Vec<UploadDescription>)
        ensures
            metadata_view(r@) == self@.collected,
    {
        self.collected
    }
}

/// Runs a collection over `pending` with prompts that come back with
/// `outcomes`, in order, until none is left to ask or no outcome is left.
pub fn collect_metadata(pending: Vec<String>, outcomes: &Vec<PromptOutcome>) -> (r: Vec<UploadDescription>)
    ensures
        metadata_view(r@) == collect_run(texts(pending@), Seq::empty(), outcomes@),
{
    let ghost all = texts(pending@);
    let mut c = MetadataCollector::new(pending);
    let mut j: usize = 0;
    assert(outcomes@.skip(0) =~= outcomes@);
    while j < outcomes.len() && !c.is_done()
        invariant
            c.wf(),
            0 <= j <= outcomes@.len(),
            outcome_of(c@, outcomes@.skip(j as int)) == collect_run(all, Seq::empty(), outcomes@),
        decreases outcomes@.len() - j,
    {
        proof {
            let rest = outcomes@.skip(j + 1);
            assert(outcomes@.skip(j as int) =~= seq![outcomes@[j as int]] + rest);
            lemma_step_then_rest(c@, outcomes@[j as int], rest);
        }
        c.answer(&outcomes[j]);
        j = j + 1;
    }
    proof {
        let rest = outcomes@.skip(j as int);
        if !c@.aborted {
            assert(c@.pending.len() == 0 || rest.len() == 0);
            assert(collect_run(c@.pending, c@.answers, rest) =~= Seq::<MetadataView>::empty());
        }
        assert(outcome_of(c@, rest) =~= c@.collected);
    }
    c.into_records()
}

} // verus!
