use vstd::prelude::*;

verus! {

/// A row of a list view: the value it stands for, its label, and whether
/// it is marked (drawn as not yet done).
#[derive(Clone, Debug)]
pub struct ListItem {
    pub value: String,
    pub label: String,
    pub marked: bool,
}

/// The rows of the profile list: one per profile, labelled by its name.
pub fn profile_list_items(names: &Vec<String>) -> (items: Vec<ListItem>)
    ensures
        items@.len() == names@.len(),
        forall|i: int|
            0 <= i < names@.len() ==> {
                &&& (#[trigger] items@[i]).value@ == names@[i]@
                &&& items@[i].label@ == names@[i]@
                &&& !items@[i].marked
            },
{
    let mut items: Vec<ListItem> = Vec::new();
    let n = names.len();
    let mut i: usize = 0;
    while i < n
        invariant
            n == names@.len(),
            i <= n,
            items@.len() == i,
            forall|k: int|
                0 <= k < i ==> {
                    &&& (#[trigger] items@[k]).value@ == names@[k]@
                    &&& items@[k].label@ == names@[k]@
                    &&& !items@[k].marked
                },
        decreases n - i,
    {
        let name: &String = &names[i];
        let value = name.clone();
        let label = name.clone();
        items.push(ListItem { value, label, marked: false });
        i = i + 1;
    }
    items
}

/// The label of the first row of the circuit list, which starts a new
/// circuit.
pub const NEW_CIRCUIT_LABEL: &'static str = "    [New Circuit]";

/// The rows of the circuit list of a puzzle whose saved circuits are
/// `names`: first a row (with an empty value) to start a new circuit, then
/// one per circuit, latest first.
pub fn circuit_list_items(names: &Vec<String>) -> (items: Vec<ListItem>)
    ensures
        items@.len() == names@.len() + 1,
        items@[0].value@ == Seq::<char>::empty(),
        items@[0].label@ == NEW_CIRCUIT_LABEL@,
        !items@[0].marked,
        forall|i: int|
            0 <= i < names@.len() ==> {
                let name = names@[names@.len() - 1 - i]@;
                &&& (#[trigger] items@[i + 1]).value@ == name
                &&& items@[i + 1].label@ == name
                &&& !items@[i + 1].marked
            },
{
    let mut items: Vec<ListItem> = Vec::new();
    items.push(ListItem { value: String::new(), label: NEW_CIRCUIT_LABEL.to_owned(), marked: false });
    let n = names.len();
    let mut i: usize = 0;
    while i < n
        invariant
            n == names@.len(),
            i <= n,
            items@.len() == i + 1,
            items@[0].value@ == Seq::<char>::empty(),
            items@[0].label@ == NEW_CIRCUIT_LABEL@,
            !items@[0].marked,
            forall|k: int|
                0 <= k < i ==> {
                    let name = names@[n - 1 - k]@;
                    &&& (#[trigger] items@[k + 1]).value@ == name
                    &&& items@[k + 1].label@ == name
                    &&& !items@[k + 1].marked
                },
        decreases n - i,
    {
        let name: &String = &names[n - 1 - i];
        let value = name.clone();
        let label = name.clone();
        items.push(ListItem { value, label, marked: false });
        i = i + 1;
    }
    items
}

/// What a list of puzzles or conversations needs to know of one of them:
/// its title, whether the player has unlocked it, and whether it is done
/// (a puzzle solved, a conversation completed).
#[derive(Clone, Debug)]
pub struct Listable {
    pub title: String,
    pub unlocked: bool,
    pub done: bool,
}

/// A row of such a list: which entry it shows (by its index among all the
/// entries), the entry's title, and whether it is marked as not yet done.
#[derive(Clone, Debug)]
pub struct ListRow {
    pub index: usize,
    pub label: String,
    pub marked: bool,
}

/// The indices of the unlocked entries among the first `n`, in order.
pub open spec fn unlocked_indices(entries: Seq<Listable>, n: int) -> Seq<int>
    decreases n,
{
    if n <= 0 {
        Seq::empty()
    } else if entries[n - 1].unlocked {
        unlocked_indices(entries, n - 1).push(n - 1)
    } else {
        unlocked_indices(entries, n - 1)
    }
}

/// The rows of a list of puzzles or conversations: one per unlocked entry,
/// in the entries' order, marked while the entry is not done.
pub fn unlocked_rows(entries: &Vec<Listable>) -> (rows: Vec<ListRow>)
    ensures
        rows@.len() == unlocked_indices(entries@, entries@.len() as int).len(),
        forall|i: int|
            0 <= i < rows@.len() ==> {
                let k = unlocked_indices(entries@, entries@.len() as int)[i];
                &&& (#[trigger] rows@[i]).index == k
                &&& k < entries@.len()
                &&& rows@[i].label@ == entries@[k].title@
                &&& rows@[i].marked == !entries@[k].done
            },
{
    let mut rows: Vec<ListRow> = Vec::new();
    let n = entries.len();
    let mut j: usize = 0;
    while j < n
        invariant
            n == entries@.len(),
            j <= n,
            rows@.len() == unlocked_indices(entries@, j as int).len(),
            forall|i: int|
                0 <= i < rows@.len() ==> {
                    let k = unlocked_indices(entries@, j as int)[i];
                    &&& (#[trigger] rows@[i]).index == k
                    &&& rows@[i].index < j
                    &&& rows@[i].label@ == entries@[k].title@
                    &&& rows@[i].marked == !entries@[k].done
                },
        decreases n - j,
    {
        let entry: &Listable = &entries[j];
        let ghost before = unlocked_indices(entries@, j as int);
        let ghost after = unlocked_indices(entries@, j + 1);
        assert(forall|i: int| 0 <= i < before.len() ==> after[i] == #[trigger] before[i]);
        if entry.unlocked {
            let label = entry.title.clone();
            rows.push(ListRow { index: j, label, marked: !entry.done });
        }
        j = j + 1;
    }
    rows
}

/// A conversation as the chapter list sees it: the chapter it belongs to
/// (by the chapter's number) and whether the player has unlocked it.
#[derive(Clone, Copy, Debug, PartialEq, Eq, Structural)]
pub struct ChapterEntry {
    pub chapter: u32,
    pub unlocked: bool,
}

/// The conversation to open when the player picks `chapter`: the first
/// unlocked conversation of that chapter, by its index among all the
/// conversations in their order; `None` when the chapter has none (the
/// game then opens its very first conversation).
pub fn first_unlocked_in_chapter(convs: &Vec<ChapterEntry>, chapter: u32) -> (r: Option<usize>)
    ensures
        r matches Some(i) ==> i < convs@.len() && convs@[i as int].chapter == chapter
            && convs@[i as int].unlocked,
        r matches Some(i) ==> forall|j: int|
            0 <= j < i ==> !(#[trigger] convs@[j].chapter == chapter && convs@[j].unlocked),
        r is None ==> forall|j: int|
            0 <= j < convs@.len() ==> !(#[trigger] convs@[j].chapter == chapter && convs@[j].unlocked),
{
    let n = convs.len();
    let mut i: usize = 0;
    while i < n
        invariant
            n == convs@.len(),
            i <= n,
            forall|j: int|
                0 <= j < i ==> !(#[trigger] convs@[j].chapter == chapter && convs@[j].unlocked),
        decreases n - i,
    {
        if convs[i].chapter == chapter && convs[i].unlocked {
            return Some(i);
        }
        i = i + 1;
    }
    None
}

} // verus!
