//! What the `onMetaData` script object says of the stream.

use vstd::prelude::*;
use crate::flv::script::{
    ScriptData,
    ScriptDataObject,
    ScriptDataObjectView,
    ScriptDataValue,
    ScriptDataValueView,
    ScriptDataView,
    objects_view,
};
use crate::number::Number;
use crate::text::str_eq;

verus! {

/// Hints on the stream, each absent until a script tag supplies it.
#[derive(Debug, Clone, Copy, PartialEq, Eq, Structural)]
pub struct MetaData {
    pub width: Option<u32>,
    pub height: Option<u32>,
    pub framerate: Option<Number>,
    pub audio_sample_rate: Option<u32>,
    pub duration_in_seconds: Option<Number>,
}

impl MetaData {
    /// The metadata that holds no hint.
    pub open spec fn spec_empty() -> MetaData {
        MetaData {
            width: None,
            height: None,
            framerate: None,
            audio_sample_rate: None,
            duration_in_seconds: None,
        }
    }

    /// Creates metadata without any hint.
    pub fn empty() -> (m: MetaData)
        ensures
            m == Self::spec_empty(),
    {
        MetaData {
            width: None,
            height: None,
            framerate: None,
            audio_sample_rate: None,
            duration_in_seconds: None,
        }
    }
}

/// The number that the last pair of `pairs` with this name and a numeric value
/// holds. A pair of that name whose value is no number does not count.
pub open spec fn last_number(pairs: Seq<ScriptDataObjectView>, name: Seq<char>) -> Option<Number>
    decreases pairs.len(),
{
    if pairs.len() == 0 {
        None
    } else {
        match pairs.last().data {
            ScriptDataValueView::Number(n) if pairs.last().name == name => Some(n),
            _ => last_number(pairs.drop_last(), name),
        }
    }
}

/// A hint after a script object was read: the new number truncated, where the
/// object gave one, else the hint as it was.
pub open spec fn refreshed(before: Option<u32>, number: Option<Number>) -> Option<u32> {
    match number {
        Some(n) => Some(n.truncated() as u32),
        None => before,
    }
}

/// As [`refreshed`], for a hint that is kept as a number.
pub open spec fn replaced(before: Option<Number>, number: Option<Number>) -> Option<Number> {
    match number {
        Some(n) => Some(n),
        None => before,
    }
}

impl MetaData {
    /// The metadata after the pairs of an `onMetaData` array were read: each
    /// of the five known names overwrites its hint, the last occurrence
    /// winning; other names, and known names with a value that is no number,
    /// change nothing.
    pub open spec fn spec_merge(self, pairs: Seq<ScriptDataObjectView>) -> MetaData {
        MetaData {
            width: refreshed(self.width, last_number(pairs, "width"@)),
            height: refreshed(self.height, last_number(pairs, "height"@)),
            framerate: replaced(self.framerate, last_number(pairs, "framerate"@)),
            audio_sample_rate: refreshed(
                self.audio_sample_rate,
                last_number(pairs, "audiosamplerate"@),
            ),
            duration_in_seconds: replaced(
                self.duration_in_seconds,
                last_number(pairs, "duration"@),
            ),
        }
    }

    /// The metadata after a script tag: merged with the pairs of the tag if it
    /// is named `onMetaData` and holds an ECMA array, else unchanged.
    pub open spec fn spec_update(self, script: ScriptDataView) -> MetaData {
        if script.name == "onMetaData"@ && script.arguments is ECMAArray {
            self.spec_merge(script.properties)
        } else {
            self
        }
    }

    /// Takes over what one pair says.
    fn merge_one(&mut self, pair: &ScriptDataObject)
        ensures
            *final(self) == old(self).spec_merge(seq![pair@]),
    {
        proof {
            let one: Seq<ScriptDataObjectView> = seq![pair@];
            assert(one.last() == pair@);
            assert(one.drop_last().len() == 0);
            reveal_with_fuel(last_number, 2);
            lemma_names_differ();
        }
        match &pair.data {
            ScriptDataValue::Number(num) => {
                if str_eq(pair.name.as_str(), "audiosamplerate") {
                    self.audio_sample_rate = Some(num.to_u32());
                } else if str_eq(pair.name.as_str(), "width") {
                    self.width = Some(num.to_u32());
                } else if str_eq(pair.name.as_str(), "height") {
                    self.height = Some(num.to_u32());
                } else if str_eq(pair.name.as_str(), "framerate") {
                    self.framerate = Some(*num);
                } else if str_eq(pair.name.as_str(), "duration") {
                    self.duration_in_seconds = Some(*num);
                }
            },
            _ => {},
        }
    }

    /// Takes over what a script tag says of the stream.
    pub fn update(&mut self, script: &ScriptData)
        ensures
            *final(self) == old(self).spec_update(script@),
    {
        if !str_eq(script.name.as_str(), "onMetaData") {
            return ;
        }
        match script.arguments {
            ScriptDataValue::ECMAArray => {
                let ghost pairs: Seq<ScriptDataObjectView> = objects_view(script.properties@);
                let n: usize = script.properties.len();
                let mut i: usize = 0;
                assert(pairs.take(0) =~= Seq::<ScriptDataObjectView>::empty());
                while i < n
                    invariant
                        i <= n,
                        n == script.properties@.len(),
                        pairs == objects_view(script.properties@),
                        *self == old(self).spec_merge(pairs.take(i as int)),
                    decreases n - i,
                {
                    let ghost before: MetaData = *self;
                    self.merge_one(&script.properties[i]);
                    proof {
                        let upto: Seq<ScriptDataObjectView> = pairs.take(i as int);
                        let next: Seq<ScriptDataObjectView> = pairs.take(i as int + 1);
                        assert(next.drop_last() =~= upto);
                        assert(next.last() == script.properties@[i as int]@);
                        let one: Seq<ScriptDataObjectView> = seq![script.properties@[i as int]@];
                        assert(one.last() == next.last());
                        assert(one.drop_last().len() == 0);
                        reveal_with_fuel(last_number, 2);
                    }
                    i = i + 1;
                }
                assert(pairs.take(n as int) =~= pairs);
            },
            _ => {},
        }
    }
}

/// The five names of the metadata are five different strings.
pub proof fn lemma_names_differ()
    ensures
        "audiosamplerate"@ != "width"@,
        "audiosamplerate"@ != "height"@,
        "audiosamplerate"@ != "framerate"@,
        "audiosamplerate"@ != "duration"@,
        "width"@ != "height"@,
        "width"@ != "framerate"@,
        "width"@ != "duration"@,
        "height"@ != "framerate"@,
        "height"@ != "duration"@,
        "framerate"@ != "duration"@,
{
    reveal_strlit("audiosamplerate");
    reveal_strlit("width");
    reveal_strlit("height");
    reveal_strlit("framerate");
    reveal_strlit("duration");
    assert("audiosamplerate"@.len() == 15);
    assert("width"@.len() == 5);
    assert("height"@.len() == 6);
    assert("framerate"@.len() == 9);
    assert("duration"@.len() == 8);
}

} // verus!
