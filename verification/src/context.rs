//! What a resolution pass knows of the process it runs in.
use vstd::prelude::*;
use crate::table::Table;
use crate::text::Entries;
use crate::text::first_known;
use crate::text::lookup;
use crate::text::texts_of;
use crate::text::view_of;

verus! {

/// The environment of one resolution pass: the variables of the process and
/// the user's home directory, as they were when the pass began.
#[derive(Clone, Debug)]
pub struct Context {
    env: Table,
    home: Option<String>,
}

/// A [`Context`] as contracts see it.
pub struct ContextView {
    /// The variables that are set, each with its value.
    pub env: Entries,
    /// The user's home directory, where one is known.
    pub home: Option<Seq<char>>,
}

impl View for Context {
    type V = ContextView;

    closed spec fn view(&self) -> ContextView {
        ContextView { env: self.env@, home: view_of(self.home) }
    }
}

impl Context {
    /// The context in which no variable is set and no home directory known.
    pub fn new() -> (context: Context)
        ensures
            context@.env == Entries::empty(),
            context@.home is None,
    {
        Context { env: Table::new(), home: None }
    }

    /// This context with the variable `name` set to `value`.
    pub fn env(self, name: &str, value: &str) -> (context: Context)
        ensures
            context@.env == self@.env.insert(name@, value@),
            context@.home == self@.home,
    {
        Context { env: self.env.with(name, value), home: self.home }
    }

    /// This context with the home directory `home`.
    pub fn home(self, home: &str) -> (context: Context)
        ensures
            context@.env == self@.env,
            context@.home == Some(home@),
    {
        Context { env: self.env, home: Some(home.to_owned()) }
    }

    /// The value of the variable `name`, if it is set.
    pub fn get_env(&self, name: &str) -> (value: Option<String>)
        ensures
            view_of(value) == lookup(self@.env, name@),
    {
        match self.env.get(name) {
            Some(v) => Some(v.clone()),
            None => None,
        }
    }

    /// The home directory, if one is known.
    pub fn get_home(&self) -> (home: Option<String>)
        ensures
            view_of(home) == self@.home,
    {
        match &self.home {
            Some(h) => Some(h.clone()),
            None => None,
        }
    }

    /// The value of the first of the variables `names` that is set.
    pub fn first_env(&self, names: &[&str]) -> (value: Option<String>)
        ensures
            view_of(value) == first_known(self@.env, texts_of(names@)),
    {
        let mut i: usize = 0;
        assert(texts_of(names@).skip(0) =~= texts_of(names@));
        while i < names.len()
            invariant
                i <= names@.len(),
                first_known(self@.env, texts_of(names@)) == first_known(
                    self@.env,
                    texts_of(names@).skip(i as int),
                ),
            decreases names@.len() - i,
        {
            let ghost rest = texts_of(names@).skip(i as int);
            assert(rest[0] == names@[i as int]@);
            assert(rest.drop_first() =~= texts_of(names@).skip(i + 1));
            match self.get_env(names[i]) {
                Some(v) => {
                    return Some(v);
                },
                None => {},
            }
            i += 1;
        }
        None
    }
}

} // verus!
