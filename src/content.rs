use vstd::prelude::*;

verus! {

/// Where a bound text value comes from.
#[derive(Clone, Copy, Debug, PartialEq, Eq, Structural)]
pub enum ValueSource {
    /// The first argument, as given (empty when there is none).
    Literal,
}

/// A text value bound to a source, with the value last shown.
#[derive(Debug)]
pub struct StringBinder {
    pub source: ValueSource,
    pub args_string: Vec<String>,
    pub current_value: String,
}

impl StringBinder {
    /// The value the source yields now.
    pub open spec fn spec_value(&self) -> Seq<char> {
        match self.source {
            ValueSource::Literal => if self.args_string@.len() > 0 {
                self.args_string@[0]@
            } else {
                Seq::empty()
            },
        }
    }

    /// A literal binding showing `arg`.
    pub fn new_with_str(arg: &str) -> (r: StringBinder)
        ensures
            r.source == ValueSource::Literal,
            r.args_string@.len() == 1,
            r.args_string@[0]@ == arg@,
            r.current_value@ == arg@,
            r.spec_value() == arg@,
    {
        let mut args_string: Vec<String> = Vec::new();
        args_string.push(arg.to_string());
        StringBinder { source: ValueSource::Literal, args_string, current_value: arg.to_string() }
    }

    /// Evaluates the source.
    pub fn get_value(&self) -> (r: String)
        ensures
            r@ == self.spec_value(),
    {
        match self.source {
            ValueSource::Literal => if self.args_string.len() > 0 {
                self.args_string[0].clone()
            } else {
                String::new()
            },
        }
    }

    /// Re-evaluates the source; stores and reports a changed value.
    pub fn check_and_update_value(&mut self) -> (r: bool)
        ensures
            r == (old(self).current_value@ != old(self).spec_value()),
            final(self).current_value@ == old(self).spec_value(),
            final(self).source == old(self).source,
            final(self).args_string == old(self).args_string,
    {
        let new_value = self.get_value();
        if self.current_value != new_value {
            self.current_value = new_value;
            true
        } else {
            false
        }
    }
}

} // verus!
