//! A named group of attributes, or a reference to one.

use vstd::prelude::*;
use crate::attribute::{attributes_text, implement_attributes, Attribute};
use crate::error::{failure, outcome, ErrorKind, Failure, GenError, Outcome};
use crate::render::{join_outcomes, lemma_join_fails, lemma_join_step};
use crate::rust_types_mapping::{local_part, qualified_name, split_name};
use crate::text::{same_text, text_option};
use crate::xsd_context::{ContextModel, XsdContext};

verus! {

#[derive(Clone, Default, Debug, PartialEq)]
pub struct AttributeGroup {
    pub name: Option<String>,
    pub reference: String,
    pub attributes: Vec<Attribute>,
}

/// Mathematical model of an [`AttributeGroup`].
pub struct GroupModel {
    pub name: Option<Seq<char>>,
    pub reference: Seq<char>,
    pub attributes: Seq<Attribute>,
}

impl View for AttributeGroup {
    type V = GroupModel;

    open spec fn view(&self) -> GroupModel {
        GroupModel {
            name: text_option(self.name),
            reference: self.reference@,
            attributes: self.attributes@,
        }
    }
}

/// The models of a run of attribute groups.
pub open spec fn group_models(groups: Seq<AttributeGroup>) -> Seq<GroupModel> {
    Seq::new(groups.len(), |i: int| groups[i]@)
}

/// Index of the first group called `name` among `defined`, at or after `from`.
pub open spec fn named_group_from(defined: Seq<GroupModel>, name: Seq<char>, from: int) -> Option<
    int,
>
    decreases defined.len() - from,
{
    if from < 0 || from >= defined.len() {
        None
    } else if defined[from].name == Some(name) {
        Some(from)
    } else {
        named_group_from(defined, name, from + 1)
    }
}

/// Groups of another name do not decide.
proof fn lemma_named_group_skip(defined: Seq<GroupModel>, name: Seq<char>, from: int, at: int)
    requires
        0 <= from <= at <= defined.len(),
        forall|j: int| from <= j < at ==> (#[trigger] defined[j]).name != Some(name),
    ensures
        named_group_from(defined, name, from) == named_group_from(defined, name, at),
    decreases at - from,
{
    if from < at {
        lemma_named_group_skip(defined, name, from + 1, at);
    }
}

/// The attributes of the group that `reference` names among the groups
/// that the schema defines: the first group whose name is the local part of
/// the reference. A reference with more than one colon is a format failure;
/// one that names no group is a missing reference.
pub open spec fn referenced_attributes_text(reference: Seq<char>, context: ContextModel)
    -> Outcome {
    let name = qualified_name(reference);
    if name is Malformed {
        Err(failure(ErrorKind::Format, reference))
    } else {
        match named_group_from(context.attribute_groups, local_part(name), 0) {
            Some(at) => attributes_text(context.attribute_groups[at].attributes, context),
            None => Err(failure(ErrorKind::MissingReference, reference)),
        }
    }
}

/// The fields that an attribute group brings into a type: those of its own
/// attributes, then, where it refers to a group, those of that group.
pub open spec fn attribute_group_text(group: AttributeGroup, context: ContextModel) -> Outcome {
    match attributes_text(group.attributes@, context) {
        Err(f) => Err(f),
        Ok(own) => if group.reference@.len() == 0 {
            Ok(own)
        } else {
            match referenced_attributes_text(group.reference@, context) {
                Err(f) => Err(f),
                Ok(referenced) => Ok(own + referenced),
            }
        },
    }
}

/// The fields that a run of attribute groups brings into a type.
pub open spec fn attribute_groups_text(groups: Seq<AttributeGroup>, context: ContextModel)
    -> Outcome {
    join_outcomes(Seq::new(groups.len(), |i: int| attribute_group_text(groups[i], context)))
}

/// A type that uses an attribute group by reference gets, after its own
/// attributes, exactly the attributes of the group that the reference names:
/// its fields are those of both, and of nothing else.
pub proof fn lemma_reference_brings_group_attributes(
    used: AttributeGroup,
    context: ContextModel,
    at: int,
)
    requires
        used.attributes@.len() == 0,
        used.reference@.len() > 0,
        !(qualified_name(used.reference@) is Malformed),
        named_group_from(context.attribute_groups, local_part(qualified_name(used.reference@)), 0)
            == Some(at),
    ensures
        attribute_groups_text(seq![used], context) == attributes_text(
            context.attribute_groups[at].attributes,
            context,
        ),
{
    let own = Seq::new(
        used.attributes@.len(),
        |i: int| crate::attribute::attribute_text(used.attributes@[i], context),
    );
    assert(own =~= Seq::empty());
    assert(attributes_text(used.attributes@, context) == Ok::<Seq<char>, Failure>(Seq::empty()));
    let parts = Seq::new(1, |i: int| attribute_group_text(seq![used][i], context));
    assert(parts.drop_last() =~= Seq::empty());
    assert(parts.last() == attribute_group_text(used, context));
    match attributes_text(context.attribute_groups[at].attributes, context) {
        Ok(referenced) => {
            assert(Seq::<char>::empty() + referenced =~= referenced);
        },
        Err(_) => {},
    }
}

/// Finds the group that `reference` names among `defined`.
pub fn find_group<'a>(reference: &str, defined: &'a Vec<AttributeGroup>) -> (r: Result<
    &'a AttributeGroup,
    GenError,
>)
    ensures
        match r {
            Ok(group) => {
                let name = qualified_name(reference@);
                &&& !(name is Malformed)
                &&& named_group_from(group_models(defined@), local_part(name), 0) matches Some(at)
                &&& group@ == group_models(defined@)[at]
            },
            Err(e) => {
                let name = qualified_name(reference@);
                if name is Malformed {
                    e@ == failure(ErrorKind::Format, reference@)
                } else {
                    &&& named_group_from(group_models(defined@), local_part(name), 0) is None
                    &&& e@ == failure(ErrorKind::MissingReference, reference@)
                }
            },
        },
{
    let parts = match split_name(reference) {
        None => {
            return Err(GenError::new(ErrorKind::Format, reference));
        },
        Some(parts) => parts,
    };
    let ghost name = local_part(qualified_name(reference@));
    let ghost models = group_models(defined@);
    let mut i: usize = 0;
    while i < defined.len()
        invariant
            i <= defined.len(),
            models == group_models(defined@),
            name == parts.local@,
            name == local_part(qualified_name(reference@)),
            !(qualified_name(reference@) is Malformed),
            forall|j: int| 0 <= j < i ==> (#[trigger] models[j]).name != Some(name),
        decreases defined.len() - i,
    {
        let found = match &defined[i].name {
            Some(own) => same_text(own.as_str(), parts.local),
            None => false,
        };
        if found {
            proof {
                lemma_named_group_skip(models, name, 0, i as int);
            }
            return Ok(&defined[i]);
        }
        i = i + 1;
    }
    proof {
        lemma_named_group_skip(models, name, 0, i as int);
    }
    Err(GenError::new(ErrorKind::MissingReference, reference))
}

/// Copies a run of attribute groups.
pub fn copy_groups(groups: &Vec<AttributeGroup>) -> (copy: Vec<AttributeGroup>)
    ensures
        group_models(copy@) == group_models(groups@),
{
    let mut copy: Vec<AttributeGroup> = Vec::new();
    let mut i: usize = 0;
    while i < groups.len()
        invariant
            i <= groups.len(),
            copy@.len() == i,
            forall|j: int| 0 <= j < i ==> (#[trigger] copy@[j])@ == groups@[j]@,
        decreases groups.len() - i,
    {
        copy.push(groups[i].duplicate());
        i = i + 1;
    }
    proof {
        assert(group_models(copy@) =~= group_models(groups@));
    }
    copy
}

impl AttributeGroup {
    /// A copy of this group.
    pub fn duplicate(&self) -> (copy: AttributeGroup)
        ensures
            copy@ == self@,
    {
        let mut attributes: Vec<Attribute> = Vec::new();
        let mut i: usize = 0;
        while i < self.attributes.len()
            invariant
                i <= self.attributes.len(),
                attributes@.len() == i,
                forall|j: int| 0 <= j < i ==> attributes@[j] == self.attributes@[j],
            decreases self.attributes.len() - i,
        {
            attributes.push(self.attributes[i].duplicate());
            i = i + 1;
        }
        proof {
            assert(attributes@ =~= self.attributes@);
        }
        AttributeGroup {
            name: match &self.name {
                Some(name) => Some(name.clone()),
                None => None,
            },
            reference: self.reference.clone(),
            attributes,
        }
    }

    /// Generates the fields that this group brings into a type. A reference
    /// is looked up among the attribute groups that the context holds.
    pub fn implement(
        &self,
        namespace_definition: &str,
        prefix: &Option<String>,
        context: &XsdContext,
    ) -> (r: Result<String, GenError>)
        ensures
            outcome(r) == attribute_group_text(*self, context@),
    {
        let mut out = implement_attributes(&self.attributes, namespace_definition, prefix, context)?;
        if self.reference.as_str().unicode_len() == 0 {
            return Ok(out);
        }
        let group = find_group(self.reference.as_str(), context.attribute_groups())?;
        let referenced = implement_attributes(
            &group.attributes,
            namespace_definition,
            prefix,
            context,
        )?;
        out.append(referenced.as_str());
        Ok(out)
    }
}

/// Generates the fields that a run of attribute groups brings into a type.
pub fn implement_attribute_groups(
    groups: &Vec<AttributeGroup>,
    namespace_definition: &str,
    prefix: &Option<String>,
    context: &XsdContext,
) -> (r: Result<String, GenError>)
    ensures
        outcome(r) == attribute_groups_text(groups@, context@),
{
    let ghost parts = Seq::new(groups@.len(), |i: int| attribute_group_text(groups@[i], context@));
    let mut out = String::new();
    let mut i: usize = 0;
    proof {
        assert(parts.take(0) =~= Seq::empty());
    }
    while i < groups.len()
        invariant
            i <= groups.len(),
            parts == Seq::new(groups@.len(), |i: int| attribute_group_text(groups@[i], context@)),
            join_outcomes(parts.take(i as int)) == Ok::<Seq<char>, Failure>(out@),
        decreases groups.len() - i,
    {
        proof {
            lemma_join_step(parts, i as int);
        }
        match groups[i].implement(namespace_definition, prefix, context) {
            Ok(text) => {
                out.append(text.as_str());
            },
            Err(e) => {
                proof {
                    lemma_join_fails(parts, i + 1);
                }
                return Err(e);
            },
        }
        i = i + 1;
    }
    proof {
        assert(parts.take(i as int) == parts);
    }
    Ok(out)
}

} // verus!
