//! Decoded messages: a kind tag plus an ordered list of named field values,
//! and first-match field lookup.

use vstd::prelude::*;

use crate::values::{TypedValue, ValueV};

verus! {

/// Mathematical model of a [`MessageField`].
#[verifier::ext_equal]
pub struct FieldV {
    pub name: Seq<char>,
    pub value: ValueV,
}

/// One named field of a decoded message.
#[derive(Debug, Clone, PartialEq)]
pub struct MessageField {
    pub name: String,
    pub value: TypedValue,
}

impl View for MessageField {
    type V = FieldV;

    open spec fn view(&self) -> FieldV {
        FieldV { name: self.name@, value: self.value@ }
    }
}

impl DeepView for MessageField {
    type V = FieldV;

    open spec fn deep_view(&self) -> FieldV {
        self.view()
    }
}

/// Mathematical model of a [`DecodedMessage`].
#[verifier::ext_equal]
pub struct MessageV {
    pub kind: Seq<char>,
    pub fields: Seq<FieldV>,
}

/// One message of the decoded stream: a kind tag (such as `session` or
/// `record`) and its fields, in decoding order.
#[derive(Debug, Clone, PartialEq)]
pub struct DecodedMessage {
    pub kind: String,
    pub fields: Vec<MessageField>,
}

impl View for DecodedMessage {
    type V = MessageV;

    open spec fn view(&self) -> MessageV {
        MessageV { kind: self.kind@, fields: self.fields.deep_view() }
    }
}

impl DeepView for DecodedMessage {
    type V = MessageV;

    open spec fn deep_view(&self) -> MessageV {
        self.view()
    }
}

/// The value of the first field named `name`, if any.
pub open spec fn spec_field_lookup(fields: Seq<FieldV>, name: Seq<char>) -> Option<ValueV>
    decreases fields.len(),
{
    if fields.len() == 0 {
        None
    } else if fields[0].name == name {
        Some(fields[0].value)
    } else {
        spec_field_lookup(fields.drop_first(), name)
    }
}

/// Find the value of the first field of `message` named `field_name`, if any.
pub fn get_field_value<'a>(message: &'a DecodedMessage, field_name: &String) -> (r: Option<
    &'a TypedValue,
>)
    ensures
        match r {
            Some(v) => spec_field_lookup(message@.fields, field_name@) == Some(v@),
            None => spec_field_lookup(message@.fields, field_name@) is None,
        },
{
    let ghost all = message@.fields;
    proof {
        assert(all.skip(0) =~= all);
    }
    let mut i: usize = 0;
    while i < message.fields.len()
        invariant
            i <= message.fields.len(),
            all == message@.fields,
            all.len() == message.fields.len(),
            spec_field_lookup(all, field_name@) == spec_field_lookup(
                all.skip(i as int),
                field_name@,
            ),
        decreases message.fields.len() - i,
    {
        if message.fields[i].name == *field_name {
            assert(all.skip(i as int)[0] == all[i as int]);
            return Some(&message.fields[i].value);
        }
        proof {
            assert(all.skip(i as int)[0] == all[i as int]);
            assert(all.skip(i as int).drop_first() =~= all.skip(i as int + 1));
        }
        i = i + 1;
    }
    proof {
        assert(all.skip(i as int) =~= Seq::<FieldV>::empty());
    }
    None
}

} // verus!
