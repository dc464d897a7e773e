//! The filters that cut audio streams and join them one after another.

use vstd::prelude::*;
use crate::config::dict::{set_option, Dictionary, Entries};
use crate::util::time::Timestamp;
use crate::util::traits::{Filter, HasInputPads, HasOutputPads};

verus! {

/// An audio trim filter: it lets through one stretch of its input. The
/// stretch starts at `start` and ends either at a time or after a duration.
#[derive(Debug)]
pub struct ATrim {
    name: String,
    start: Timestamp,
    end: Option<Timestamp>,
    duration: Option<Timestamp>,
}

impl ATrim {
    /// Either the end or the duration is set, and each time can be written
    /// in milliseconds.
    #[verifier::type_invariant]
    closed spec fn wf(self) -> bool {
        &&& self.start.spec_millis() is Some
        &&& self.end is Some <==> self.duration is None
        &&& self.end matches Some(end) ==> end.spec_millis() is Some
        &&& self.duration matches Some(duration) ==> duration.spec_millis() is Some
    }

    /// The start of the stretch in milliseconds.
    pub closed spec fn spec_start(self) -> nat {
        self.start.spec_millis()->0
    }

    /// The end of the stretch in milliseconds, if the filter was made with
    /// one.
    pub closed spec fn spec_end(self) -> Option<nat> {
        match self.end {
            Some(end) => Some(end.spec_millis()->0),
            None => None,
        }
    }

    /// The duration of the stretch in milliseconds, if the filter was made
    /// with one.
    pub closed spec fn spec_duration(self) -> Option<nat> {
        match self.duration {
            Some(duration) => Some(duration.spec_millis()->0),
            None => None,
        }
    }

    /// A trim filter named `name` for the stretch that starts at `start` and
    /// lasts for `duration`.
    pub fn new_with_duration(name: &str, start: Timestamp, duration: Timestamp) -> (filter: Self)
        requires
            start.spec_millis() is Some,
            duration.spec_millis() is Some,
        ensures
            filter.spec_filter_name() == name@,
            filter.spec_start() == start.spec_millis()->0,
            filter.spec_end() is None,
            filter.spec_duration() == Some(duration.spec_millis()->0),
    {
        ATrim { name: String::from_str(name), start, end: None, duration: Some(duration) }
    }

    /// A trim filter named `name` for the stretch from `start` to `end`.
    pub fn new_with_end(name: &str, start: Timestamp, end: Timestamp) -> (filter: Self)
        requires
            start.spec_millis() is Some,
            end.spec_millis() is Some,
        ensures
            filter.spec_filter_name() == name@,
            filter.spec_start() == start.spec_millis()->0,
            filter.spec_end() == Some(end.spec_millis()->0),
            filter.spec_duration() is None,
    {
        ATrim { name: String::from_str(name), start, end: Some(end), duration: None }
    }
}

impl HasInputPads for ATrim {

}

impl HasOutputPads for ATrim {

}

impl Filter for ATrim {
    open spec fn spec_filter_type_name() -> Seq<char> {
        "atrim"@
    }

    closed spec fn spec_filter_name(&self) -> Seq<char> {
        self.name@
    }

    /// The start, and then the end or the duration, each in seconds with
    /// three decimals.
    open spec fn spec_config_parameters(&self) -> Entries {
        seq![
            ("start"@, Timestamp::spec_text_of_millis(self.spec_start())),
            match self.spec_end() {
                Some(end) => ("end"@, Timestamp::spec_text_of_millis(end)),
                None => ("duration"@, Timestamp::spec_text_of_millis(self.spec_duration()->0)),
            },
        ]
    }

    fn filter_type_name() -> (name: &'static str) {
        "atrim"
    }

    fn filter_name(&self) -> (name: &str) {
        self.name.as_str()
    }

    fn config_parameters_dict(&self) -> (dict: Dictionary) {
        proof {
            use_type_invariant(self);
            reveal_strlit("start");
            reveal_strlit("end");
            reveal_strlit("duration");
        }
        let mut dict = Dictionary::new();
        let start = self.start.to_text().unwrap();
        proof {
            Timestamp::lemma_text_nul_free(self.start.spec_millis()->0);
        }
        set_option(&mut dict, "start", start.as_str());
        match self.end {
            Some(end) => {
                let text = end.to_text().unwrap();
                proof {
                    Timestamp::lemma_text_nul_free(end.spec_millis()->0);
                }
                set_option(&mut dict, "end", text.as_str());
            },
            None => {
                let duration = self.duration.unwrap();
                let text = duration.to_text().unwrap();
                proof {
                    Timestamp::lemma_text_nul_free(duration.spec_millis()->0);
                }
                set_option(&mut dict, "duration", text.as_str());
            },
        }
        assert(dict@ =~= self.spec_config_parameters());
        dict
    }
}

/// An audio cross fade filter: it fades from its first input to its second.
#[derive(Debug)]
pub struct ACrosssfade {
    name: String,
    duration: Timestamp,
    overlap: bool,
}

impl ACrosssfade {
    /// The duration can be written in milliseconds.
    #[verifier::type_invariant]
    closed spec fn wf(self) -> bool {
        self.duration.spec_millis() is Some
    }

    /// The duration of the fade in milliseconds.
    pub closed spec fn spec_duration(self) -> nat {
        self.duration.spec_millis()->0
    }

    /// Whether the end of the first input and the start of the second
    /// overlap during the fade.
    pub closed spec fn spec_overlap(self) -> bool {
        self.overlap
    }

    /// A cross fade named `name` that lasts for `duration` and plays the
    /// second input only after the first has ended.
    pub fn no_overlap(name: &str, duration: Timestamp) -> (filter: Self)
        requires
            duration.spec_millis() is Some,
        ensures
            filter.spec_filter_name() == name@,
            filter.spec_duration() == duration.spec_millis()->0,
            !filter.spec_overlap(),
    {
        ACrosssfade { name: String::from_str(name), duration, overlap: false }
    }
}

impl HasInputPads for ACrosssfade {

}

impl HasOutputPads for ACrosssfade {

}

impl Filter for ACrosssfade {
    open spec fn spec_filter_type_name() -> Seq<char> {
        "acrossfade"@
    }

    closed spec fn spec_filter_name(&self) -> Seq<char> {
        self.name@
    }

    /// The duration in seconds with three decimals, and `1` or `0` for
    /// whether the inputs overlap.
    open spec fn spec_config_parameters(&self) -> Entries {
        seq![
            ("duration"@, Timestamp::spec_text_of_millis(self.spec_duration())),
            ("overlap"@, if self.spec_overlap() {
                "1"@
            } else {
                "0"@
            }),
        ]
    }

    fn filter_type_name() -> (name: &'static str) {
        "acrossfade"
    }

    fn filter_name(&self) -> (name: &str) {
        self.name.as_str()
    }

    fn config_parameters_dict(&self) -> (dict: Dictionary) {
        proof {
            use_type_invariant(self);
            reveal_strlit("duration");
            reveal_strlit("overlap");
            reveal_strlit("1");
            reveal_strlit("0");
            Timestamp::lemma_text_nul_free(self.duration.spec_millis()->0);
        }
        let mut dict = Dictionary::new();
        let duration = self.duration.to_text().unwrap();
        set_option(&mut dict, "duration", duration.as_str());
        set_option(&mut dict, "overlap", if self.overlap {
            "1"
        } else {
            "0"
        });
        assert(dict@ =~= self.spec_config_parameters());
        dict
    }
}

} // verus!
