use vstd::prelude::*;


verus! {

/// The options a drop-down menu offers, held in one of three ways.
pub enum ModalMachineGear<'a> {
    /// Options that live for the whole program.
    Constant(&'static Vec<String>),
    /// Borrowed options.
    Immutable(&'a Vec<String>),
    /// Mutably borrowed options.
    Mutable(&'a mut Vec<String>),
}

impl<'a> ModalMachineGear<'a> {
    /// The options, however they are held.
    pub open spec fn spec_teeth(&self) -> Seq<String> {
        match self {
            ModalMachineGear::Constant(v) => v@,
            ModalMachineGear::Immutable(v) => v@,
            ModalMachineGear::Mutable(v) => (**v)@,
        }
    }

    /// The options, however they are held.
    pub fn teeth(&self) -> (res: &Vec<String>)
        ensures
            res@ == self.spec_teeth(),
    {
        match self {
            ModalMachineGear::Constant(v) => v,
            ModalMachineGear::Immutable(v) => v,
            ModalMachineGear::Mutable(v) => v,
        }
    }
}

/// The number of options whose clicks count: those that have both an
/// option and a click flag.
pub open spec fn click_span(teeth: Seq<String>, clicked: Seq<bool>) -> int {
    if teeth.len() < clicked.len() {
        teeth.len() as int
    } else {
        clicked.len() as int
    }
}

/// `i` is the last of the first `n` options that the user clicked.
pub open spec fn last_clicked(clicked: Seq<bool>, n: int, i: int) -> bool {
    &&& 0 <= i < n
    &&& clicked[i]
    &&& forall|j: int| i < j < n ==> !#[trigger] clicked[j]
}

/// There is at most one last clicked option.
pub proof fn lemma_last_clicked_unique(clicked: Seq<bool>, n: int, i: int, j: int)
    requires
        last_clicked(clicked, n, i),
        last_clicked(clicked, n, j),
    ensures
        i == j,
{
    if i < j {
        assert(!clicked[j]);
    } else if j < i {
        assert(!clicked[i]);
    }
}

/// With one click flag per option, every option can be chosen: all clicks
/// count, and the last clicked option, wherever it stands, is the one that
/// `modal_choice` selects and returns.
pub proof fn law_last_click_selects(teeth: Seq<String>, clicked: Seq<bool>, i: int)
    requires
        clicked.len() == teeth.len(),
        0 <= i < teeth.len(),
        clicked[i],
        forall|j: int| i < j < teeth.len() ==> !#[trigger] clicked[j],
    ensures
        click_span(teeth, clicked) == teeth.len(),
        exists|k: int| last_clicked(clicked, click_span(teeth, clicked), k),
        (choose|k: int| last_clicked(clicked, click_span(teeth, clicked), k)) == i,
{
    let n = click_span(teeth, clicked);
    assert(last_clicked(clicked, n, i));
    let k = choose|k: int| last_clicked(clicked, n, k);
    lemma_last_clicked_unique(clicked, n, i, k);
}

/// What a menu's clicks choose: `clicked[i]` tells whether option `i` was
/// clicked (a flag without an option, or an option without a flag, counts
/// for nothing). The last clicked option becomes the selection and is
/// returned; with no click the selection stays and nothing is returned. The
/// options themselves are only read, and what is returned is always one of
/// them.
pub fn modal_choice(teeth: &Vec<String>, clicked: &Vec<bool>, selected_modal: &mut String) -> (res:
    Option<String>)
    ensures
        res matches Some(t) ==> exists|i: int| 0 <= i < teeth@.len() && t@ == #[trigger] teeth@[i]@,
        clicked@.len() == teeth@.len() ==> forall|i: int|
            0 <= i < teeth@.len() && clicked@[i] && (forall|j: int|
                i < j < teeth@.len() ==> !#[trigger] clicked@[j]) ==> {
                &&& res matches Some(t) && t@ == #[trigger] teeth@[i]@
                &&& final(selected_modal)@ == teeth@[i]@
            },
        (exists|i: int| last_clicked(clicked@, click_span(teeth@, clicked@), i)) ==> {
            let i = choose|i: int| last_clicked(clicked@, click_span(teeth@, clicked@), i);
            &&& res matches Some(t) && t@ == teeth@[i]@
            &&& final(selected_modal)@ == teeth@[i]@
        },
        !(exists|i: int| last_clicked(clicked@, click_span(teeth@, clicked@), i)) ==> {
            &&& res is None
            &&& final(selected_modal)@ == old(selected_modal)@
        },
{
    let mut some_tooth: Option<String> = None;
    let n = if teeth.len() < clicked.len() {
        teeth.len()
    } else {
        clicked.len()
    };
    let ghost span = click_span(teeth@, clicked@);
    let mut i: usize = 0;
    while i < n
        invariant
            n == span,
            span <= teeth@.len(),
            span <= clicked@.len(),
            i <= n,
            match some_tooth {
                None => {
                    &&& forall|j: int| 0 <= j < i ==> !#[trigger] clicked@[j]
                    &&& selected_modal@ == old(selected_modal)@
                },
                Some(t) => exists|k: int|
                    0 <= k < i && clicked@[k] && (forall|j: int| k < j < i ==> !#[trigger] clicked@[j])
                        && t@ == teeth@[k]@ && selected_modal@ == teeth@[k]@,
            },
        decreases n - i,
    {
        if clicked[i] {
            *selected_modal = teeth[i].clone();
            some_tooth = Some(teeth[i].clone());
        }
        i = i + 1;
    }
    proof {
        assert forall|i: int|
            clicked@.len() == teeth@.len() && 0 <= i < teeth@.len() && clicked@[i] && (forall|j: int|
                i < j < teeth@.len() ==> !#[trigger] clicked@[j]) implies last_clicked(clicked@, span, i)
            && (choose|k: int| last_clicked(clicked@, span, k)) == i by {
            law_last_click_selects(teeth@, clicked@, i);
        }
        match &some_tooth {
            Some(t) => {
                let k = choose|k: int|
                    0 <= k < n && clicked@[k] && (forall|j: int| k < j < n ==> !#[trigger] clicked@[j])
                        && t@ == teeth@[k]@ && selected_modal@ == teeth@[k]@;
                assert(last_clicked(clicked@, span, k));
                let c = choose|i: int| last_clicked(clicked@, span, i);
                lemma_last_clicked_unique(clicked@, span, k, c);
                assert(t@ == teeth@[k]@);
            },
            None => {
                if exists|i: int| last_clicked(clicked@, span, i) {
                    let c = choose|i: int| last_clicked(clicked@, span, i);
                    assert(clicked@[c]);
                }
            },
        }
    }
    some_tooth
}

/// Runs `action` on the chosen option, if one was chosen.
pub fn act_on_tooth<F: FnOnce(&str)>(some_tooth: Option<String>, action: F)
    requires
        some_tooth matches Some(t) ==> forall|s: &str| s@ == t@ ==> call_requires(action, (s,)),
    ensures
        some_tooth matches Some(t) ==> exists|s: &str| s@ == t@ && call_ensures(action, (s,), ()),
{
    if let Some(tooth) = some_tooth {
        action(tooth.as_str());
    }
}

} // verus!
