//! Values of variables, their text form, and tables keyed by name.
use vstd::prelude::*;
use crate::text::same_text;

verus! {

/// The value of a variable.
#[derive(Clone, Debug, PartialEq, Eq)]
pub enum Value {
    String(String),
    Integer(i64),
    Bool(bool),
}

/// The text of the decimal digit `d`.
pub open spec fn digit_text(d: nat) -> Seq<char> {
    if d == 0 {
        "0"@
    } else if d == 1 {
        "1"@
    } else if d == 2 {
        "2"@
    } else if d == 3 {
        "3"@
    } else if d == 4 {
        "4"@
    } else if d == 5 {
        "5"@
    } else if d == 6 {
        "6"@
    } else if d == 7 {
        "7"@
    } else if d == 8 {
        "8"@
    } else {
        "9"@
    }
}

/// `n` written in decimal, without leading zeros.
pub open spec fn decimal(n: nat) -> Seq<char>
    decreases n,
{
    if n < 10 {
        digit_text(n)
    } else {
        decimal(n / 10) + digit_text(n % 10)
    }
}

/// `i` written in decimal, with a leading `-` when it is negative.
pub open spec fn integer_text(i: int) -> Seq<char> {
    if i < 0 {
        "-"@ + decimal((-i) as nat)
    } else {
        decimal(i as nat)
    }
}

/// The text that stands for `v` where a template names it.
pub open spec fn render(v: Value) -> Seq<char> {
    match v {
        Value::String(s) => s@,
        Value::Integer(i) => integer_text(i as int),
        Value::Bool(b) => if b {
            "true"@
        } else {
            "false"@
        },
    }
}

fn digit(d: u64) -> (r: &'static str)
    requires
        d < 10,
    ensures
        r@ == digit_text(d as nat),
{
    if d == 0 {
        "0"
    } else if d == 1 {
        "1"
    } else if d == 2 {
        "2"
    } else if d == 3 {
        "3"
    } else if d == 4 {
        "4"
    } else if d == 5 {
        "5"
    } else if d == 6 {
        "6"
    } else if d == 7 {
        "7"
    } else if d == 8 {
        "8"
    } else {
        "9"
    }
}

fn decimal_string(n: u64) -> (r: String)
    ensures
        r@ == decimal(n as nat),
    decreases n,
{
    if n < 10 {
        digit(n).to_string()
    } else {
        let mut r = decimal_string(n / 10);
        r.append(digit(n % 10));
        r
    }
}

/// The text of `v`, as a template gives it.
pub fn render_value(v: &Value) -> (r: String)
    ensures
        r@ == render(*v),
{
    match v {
        Value::String(s) => s.clone(),
        Value::Integer(i) => {
            if *i < 0 {
                let wide: i128 = *i as i128;
                let magnitude: u64 = (-wide) as u64;
                let mut r = "-".to_string();
                r.append(decimal_string(magnitude).as_str());
                r
            } else {
                decimal_string(*i as u64)
            }
        },
        Value::Bool(b) => {
            if *b {
                "true".to_string()
            } else {
                "false".to_string()
            }
        },
    }
}

/// The value of the last entry named `name`.
pub open spec fn find<V>(entries: Seq<(String, V)>, name: Seq<char>) -> Option<V>
    decreases entries.len(),
{
    if entries.len() == 0 {
        None
    } else if entries.last().0@ == name {
        Some(entries.last().1)
    } else {
        find(entries.drop_last(), name)
    }
}

/// Values keyed by name; a later entry under a name replaces an earlier one.
pub struct Table<V> {
    entries: Vec<(String, V)>,
}

impl<V> View for Table<V> {
    type V = Map<Seq<char>, V>;

    closed spec fn view(&self) -> Map<Seq<char>, V> {
        Map::new(
            |k: Seq<char>| find(self.entries@, k) is Some,
            |k: Seq<char>| find(self.entries@, k)->0,
        )
    }
}

impl<V> Table<V> {
    /// An empty table.
    pub fn new() -> (r: Self)
        ensures
            r@ == Map::<Seq<char>, V>::empty(),
    {
        let r = Table { entries: Vec::new() };
        assert(r@ =~= Map::<Seq<char>, V>::empty());
        r
    }

    /// Sets the value under `name`.
    pub fn insert(&mut self, name: String, value: V)
        ensures
            final(self)@ == old(self)@.insert(name@, value),
    {
        let ghost old_entries = self.entries@;
        let ghost key = name@;
        self.entries.push((name, value));
        assert forall|k: Seq<char>|
            #[trigger] find(self.entries@, k) == (if k == key {
                Some(value)
            } else {
                find(old_entries, k)
            }) by {
            assert(self.entries@.drop_last() =~= old_entries);
        }
        assert(self@ =~= old(self)@.insert(key, value));
    }

    /// The value under `name`, if there is one.
    pub fn get(&self, name: &str) -> (r: Option<&V>)
        ensures
            match r {
                Some(v) => self@.contains_key(name@) && *v == self@[name@],
                None => !self@.contains_key(name@),
            },
    {
        let mut i: usize = self.entries.len();
        assert(self.entries@.subrange(0, i as int) =~= self.entries@);
        while i > 0
            invariant
                i <= self.entries@.len(),
                find(self.entries@, name@) == find(self.entries@.subrange(0, i as int), name@),
            decreases i,
        {
            let ghost prefix = self.entries@.subrange(0, i as int);
            assert(prefix.drop_last() =~= self.entries@.subrange(0, i - 1));
            if same_text(self.entries[i - 1].0.as_str(), name) {
                return Some(&self.entries[i - 1].1);
            }
            i = i - 1;
        }
        None
    }
}

/// The variables a template is evaluated against.
pub type Variables = Table<Value>;

} // verus!
