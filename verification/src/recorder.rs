use vstd::prelude::*;
use vstd::string::StringExecFns;

verus! {

/// What the log reads after one more successful call: the first entry gets
/// no separator, every later entry is preceded by a single newline.
pub open spec fn log_after(log: Seq<char>, entry: Seq<char>) -> Seq<char> {
    if log.len() == 0 {
        entry
    } else {
        log + seq!['\n'] + entry
    }
}

/// Wraps one invokable collaborator and keeps an append-only textual log of
/// the values that collaborator has returned.
///
/// The recorder itself holds only the log. The host performs the forwarded
/// call and hands its outcome to `absorb`, which updates the log on success,
/// leaves it untouched on failure, and passes the outcome through unchanged
/// either way.
pub struct CallRecorder {
    pub log: String,
}

impl CallRecorder {
    pub fn new() -> (r: Self)
        ensures
            r.log@ == Seq::<char>::empty(),
    {
        CallRecorder { log: String::new() }
    }

    /// The full log so far, as one joined string: empty until some call has
    /// succeeded.
    pub fn log(&self) -> (r: String)
        ensures
            r@ == self.log@,
    {
        self.log.clone()
    }

    /// Take the outcome of one forwarded call. On success the textual form
    /// of the returned value is appended to the log; a failure leaves the
    /// log exactly as it was. The outcome itself is handed back unchanged.
    pub fn absorb<E>(&mut self, outcome: Result<String, E>) -> (r: Result<String, E>)
        ensures
            r == outcome,
            outcome is Ok ==> final(self).log@ == log_after(old(self).log@, outcome->Ok_0@),
            outcome is Err ==> *final(self) == *old(self),
    {
        match outcome {
            Ok(text) => {
                self.append_entry(text.as_str());
                Ok(text)
            },
            Err(e) => Err(e),
        }
    }

    fn append_entry(&mut self, entry: &str)
        ensures
            final(self).log@ == log_after(old(self).log@, entry@),
    {
        if self.log.as_str().is_empty() {
            self.log.append(entry);
            proof {
                assert(self.log@ =~= entry@);
            }
        } else {
            self.log.append("\n");
            self.log.append(entry);
            proof {
                reveal_strlit("\n");
                assert(("\n")@ =~= seq!['\n']);
                assert(self.log@ =~= old(self).log@ + seq!['\n'] + entry@);
            }
        }
    }
}

} // verus!
