use vstd::prelude::*;

verus! {

/// What a label is: its key and its value.
pub type LabelView = (Seq<char>, Seq<char>);

/// What a metric key is: a name and the labels attached to it, in order.
pub struct KeyView {
    pub name: Seq<char>,
    pub labels: Seq<LabelView>,
}

/// A key/value pair that tells apart instances of one metric.
pub struct Label {
    key: String,
    value: String,
}

impl View for Label {
    type V = LabelView;

    closed spec fn view(&self) -> LabelView {
        (self.key@, self.value@)
    }
}

impl Label {
    pub fn new(key: String, value: String) -> (r: Label)
        ensures
            r@ == (key@, value@),
    {
        Label { key, value }
    }

    pub fn key(&self) -> (r: &str)
        ensures
            r@ == self@.0,
    {
        self.key.as_str()
    }

    pub fn value(&self) -> (r: &str)
        ensures
            r@ == self@.1,
    {
        self.value.as_str()
    }

    /// A label equal to this one that owns its own text.
    pub fn duplicate(&self) -> (r: Label)
        ensures
            r@ == self@,
    {
        Label { key: self.key.clone(), value: self.value.clone() }
    }
}

/// The labels of `labels`, in order.
pub open spec fn labels_view(labels: Seq<Label>) -> Seq<LabelView> {
    labels.map_values(|l: Label| l@)
}

/// The identity of a metric: its name and its labels.
pub struct Key {
    name: String,
    labels: Vec<Label>,
}

impl View for Key {
    type V = KeyView;

    closed spec fn view(&self) -> KeyView {
        KeyView { name: self.name@, labels: labels_view(self.labels@) }
    }
}

/// A copy of `labels`, label for label.
fn duplicate_labels(labels: &Vec<Label>) -> (r: Vec<Label>)
    ensures
        labels_view(r@) == labels_view(labels@),
{
    let mut r: Vec<Label> = Vec::new();
    let mut i: usize = 0;
    while i < labels.len()
        invariant
            i <= labels.len(),
            r@.len() == i,
            forall|j: int| 0 <= j < i ==> (#[trigger] r@[j])@ == labels@[j]@,
        decreases labels.len() - i,
    {
        r.push(labels[i].duplicate());
        i = i + 1;
    }
    assert(labels_view(r@) =~= labels_view(labels@));
    r
}

impl Key {
    /// A key with the given name and labels.
    pub fn from_parts(name: String, labels: Vec<Label>) -> (r: Key)
        ensures
            r@ == (KeyView { name: name@, labels: labels_view(labels@) }),
    {
        Key { name, labels }
    }

    /// A key with the given name and no labels.
    pub fn from_name(name: String) -> (r: Key)
        ensures
            r@ == (KeyView { name: name@, labels: Seq::empty() }),
    {
        let r = Key { name, labels: Vec::new() };
        assert(labels_view(r.labels@) =~= Seq::empty());
        r
    }

    pub fn name(&self) -> (r: &str)
        ensures
            r@ == self@.name,
    {
        self.name.as_str()
    }

    pub fn labels(&self) -> (r: &Vec<Label>)
        ensures
            labels_view(r@) == self@.labels,
    {
        &self.labels
    }

    /// A key with the name `name` and the labels of this key, unchanged.
    pub fn with_name(&self, name: String) -> (r: Key)
        ensures
            r@ == (KeyView { name: name@, labels: self@.labels }),
    {
        Key { name, labels: duplicate_labels(&self.labels) }
    }
}

} // verus!
