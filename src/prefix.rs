use vstd::prelude::*;
use vstd::string::*;

use crate::key::{Key, KeyView};
use crate::recorder::Recorder;

verus! {

/// The name that a metric called `name` gets under `prefix`: the prefix, one
/// `.` separator, then the name itself.
pub open spec fn prefixed(prefix: Seq<char>, name: Seq<char>) -> Seq<char> {
    prefix + seq!['.'] + name
}

/// The key that `key` becomes under `prefix`: its name prefixed, its labels
/// untouched.
pub open spec fn prefixed_key(prefix: Seq<char>, key: KeyView) -> KeyView {
    KeyView { name: prefixed(prefix, key.name), labels: key.labels }
}

/// A prefixed name is made of the prefix, then a single `.`, then the
/// name itself, each whole and in that order.
pub proof fn lemma_prefixed_parts(prefix: Seq<char>, name: Seq<char>)
    ensures
        prefixed(prefix, name).len() == prefix.len() + 1 + name.len(),
        prefixed(prefix, name).subrange(0, prefix.len() as int) == prefix,
        prefixed(prefix, name)[prefix.len() as int] == '.',
        prefixed(prefix, name).subrange(prefix.len() + 1int, prefixed(prefix, name).len() as int)
            == name,
{
    let r = prefixed(prefix, name);
    assert(r.subrange(0, prefix.len() as int) =~= prefix);
    assert(r.subrange(prefix.len() + 1int, r.len() as int) =~= name);
}

/// Prefixing a key renames it as prefixing its name alone would, and leaves
/// its labels, their order included, as they were.
pub proof fn lemma_prefixed_key_keeps_labels(prefix: Seq<char>, key: KeyView)
    ensures
        prefixed_key(prefix, key).name == prefixed(prefix, key.name),
        prefixed_key(prefix, key).labels == key.labels,
{
}

/// A key made from a name alone, once prefixed, carries the same name as the
/// name prefixed directly.
pub proof fn lemma_key_and_name_paths_agree(prefix: Seq<char>, name: Seq<char>)
    ensures
        prefixed_key(prefix, KeyView { name, labels: Seq::empty() })
            == (KeyView { name: prefixed(prefix, name), labels: Seq::empty() }),
{
}

/// Under the empty prefix a name only gains the leading separator.
pub proof fn lemma_empty_prefix(name: Seq<char>)
    ensures
        prefixed(Seq::empty(), name) == seq!['.'] + name,
{
    assert(prefixed(Seq::empty(), name) =~= seq!['.'] + name);
}

/// The empty name becomes the prefix followed by the separator.
pub proof fn lemma_empty_name(prefix: Seq<char>)
    ensures
        prefixed(prefix, Seq::empty()) == prefix + seq!['.'],
{
    assert(prefixed(prefix, Seq::empty()) =~= prefix + seq!['.']);
}

/// A recorder that applies a prefix to every metric key before handing the
/// call on to the recorder it wraps.
///
/// Keys are renamed to `<prefix>.<name>`.
pub struct Prefix<R> {
    prefix: String,
    inner: R,
}

impl<R> Prefix<R> {
    /// The prefix put in front of every name.
    pub closed spec fn spec_prefix(&self) -> Seq<char> {
        self.prefix@
    }

    /// The recorder that receives the renamed calls.
    pub closed spec fn spec_inner(&self) -> R {
        self.inner
    }

    pub fn prefix(&self) -> (r: &str)
        ensures
            r@ == self.spec_prefix(),
    {
        self.prefix.as_str()
    }

    pub fn inner(&self) -> (r: &R)
        ensures
            *r == self.spec_inner(),
    {
        &self.inner
    }

    /// `name` with the prefix and the separator in front of it.
    pub fn prefix_key_name(&self, name: &str) -> (r: String)
        ensures
            r@ == prefixed(self.spec_prefix(), name@),
    {
        let mut new_name = String::new();
        new_name.append(self.prefix.as_str());
        new_name.append(".");
        new_name.append(name);
        proof {
            reveal_strlit(".");
        }
        new_name
    }

    /// `key` with its name prefixed and its labels kept as they are.
    pub fn prefix_key(&self, key: &Key) -> (r: Key)
        ensures
            r@ == prefixed_key(self.spec_prefix(), key@),
    {
        let new_name = self.prefix_key_name(key.name());
        key.with_name(new_name)
    }
}

impl<R: Recorder> Recorder for Prefix<R> {
    type Attribute = R::Attribute;
    type Counter = R::Counter;
    type Gauge = R::Gauge;
    type Histogram = R::Histogram;

    /// Hands the inner recorder the prefixed name and the attribute as given.
    fn set_counter_attribute(&self, key: &str, attribute: Self::Attribute)
        ensures
            exists|k: &str|
                k@ == prefixed(self.spec_prefix(), key@) && call_ensures(
                    R::set_counter_attribute,
                    (&self.spec_inner(), k, attribute),
                    (),
                ),
    {
        let new_key = self.prefix_key_name(key);
        self.inner.set_counter_attribute(new_key.as_str(), attribute)
    }

    /// Hands the inner recorder the prefixed name and the attribute as given.
    fn set_gauge_attribute(&self, key: &str, attribute: Self::Attribute)
        ensures
            exists|k: &str|
                k@ == prefixed(self.spec_prefix(), key@) && call_ensures(
                    R::set_gauge_attribute,
                    (&self.spec_inner(), k, attribute),
                    (),
                ),
    {
        let new_key = self.prefix_key_name(key);
        self.inner.set_gauge_attribute(new_key.as_str(), attribute)
    }

    /// Hands the inner recorder the prefixed name and the attribute as given.
    fn set_histogram_attribute(&self, key: &str, attribute: Self::Attribute)
        ensures
            exists|k: &str|
                k@ == prefixed(self.spec_prefix(), key@) && call_ensures(
                    R::set_histogram_attribute,
                    (&self.spec_inner(), k, attribute),
                    (),
                ),
    {
        let new_key = self.prefix_key_name(key);
        self.inner.set_histogram_attribute(new_key.as_str(), attribute)
    }

    /// Registers with the inner recorder the key renamed under the prefix,
    /// labels unchanged, and returns the handle it gave.
    fn register_counter(&self, key: &Key) -> (r: Self::Counter)
        ensures
            exists|k: Key|
                k@ == prefixed_key(self.spec_prefix(), key@) && call_ensures(
                    R::register_counter,
                    (&self.spec_inner(), &k),
                    r,
                ),
    {
        let new_key = self.prefix_key(key);
        self.inner.register_counter(&new_key)
    }

    /// Registers with the inner recorder the key renamed under the prefix,
    /// labels unchanged, and returns the handle it gave.
    fn register_gauge(&self, key: &Key) -> (r: Self::Gauge)
        ensures
            exists|k: Key|
                k@ == prefixed_key(self.spec_prefix(), key@) && call_ensures(
                    R::register_gauge,
                    (&self.spec_inner(), &k),
                    r,
                ),
    {
        let new_key = self.prefix_key(key);
        self.inner.register_gauge(&new_key)
    }

    /// Registers with the inner recorder the key renamed under the prefix,
    /// labels unchanged, and returns the handle it gave.
    fn register_histogram(&self, key: &Key) -> (r: Self::Histogram)
        ensures
            exists|k: Key|
                k@ == prefixed_key(self.spec_prefix(), key@) && call_ensures(
                    R::register_histogram,
                    (&self.spec_inner(), &k),
                    r,
                ),
    {
        let new_key = self.prefix_key(key);
        self.inner.register_histogram(&new_key)
    }
}

/// A decorator wrapped in another renames a key once for each prefix, the
/// outer one first, keeps its labels, and hands back the innermost recorder's
/// handle.
pub proof fn lemma_nested_prefixes_rename_once_each<R: Recorder>(
    outer: Prefix<Prefix<R>>,
    key: Key,
    h: R::Counter,
)
    requires
        call_ensures(<Prefix<Prefix<R>> as Recorder>::register_counter, (&outer, &key), h),
    ensures
        exists|k: Key|
            k@ == prefixed_key(
                outer.spec_inner().spec_prefix(),
                prefixed_key(outer.spec_prefix(), key@),
            ) && call_ensures(R::register_counter, (&outer.spec_inner().spec_inner(), &k), h),
{
    let k1 = choose|k: Key|
        k@ == prefixed_key(outer.spec_prefix(), key@) && call_ensures(
            <Prefix<R> as Recorder>::register_counter,
            (&outer.spec_inner(), &k),
            h,
        );
    let k2 = choose|k: Key|
        k@ == prefixed_key(outer.spec_inner().spec_prefix(), k1@) && call_ensures(
            R::register_counter,
            (&outer.spec_inner().spec_inner(), &k),
            h,
        );
    assert(k2@ == prefixed_key(
        outer.spec_inner().spec_prefix(),
        prefixed_key(outer.spec_prefix(), key@),
    ));
}

/// Builds a [`Prefix`] recorder around any recorder, always with the same
/// prefix.
pub struct PrefixLayer(String);

impl View for PrefixLayer {
    type V = Seq<char>;

    closed spec fn view(&self) -> Seq<char> {
        self.0@
    }
}

impl PrefixLayer {
    /// A layer that prefixes with `prefix`; any text is accepted.
    pub fn new(prefix: &str) -> (r: PrefixLayer)
        ensures
            r@ == prefix@,
    {
        PrefixLayer(prefix.to_owned())
    }

    /// A new prefixing recorder that wraps `inner`.
    pub fn layer<R>(&self, inner: R) -> (r: Prefix<R>)
        ensures
            r.spec_prefix() == self@,
            r.spec_inner() == inner,
    {
        Prefix { prefix: self.0.clone(), inner }
    }
}

} // verus!
