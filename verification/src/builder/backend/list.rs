//! Strong typing layer on top of list builders

use crate::builder::backend::{ExtendError, TypedBackend};
use crate::builder::config::BuilderConfig;
use crate::element::list::{ApplyValidity, ListSlice, SublistSlice};
use crate::element::option::OptionSlice;
use crate::element::{element_models, ArrayElement, Slice, Value};
use vstd::prelude::*;
use vstd::std_specs::cmp::{PartialEqSpec, PartialEqSpecImpl};

verus! {

/// Extra configuration requested by the list backend
pub struct ListConfig<Item: ArrayElement, ItemBackend: TypedBackend<Item>> {
    /// Name of the list item field ("item" by default)
    pub item_name: Option<String>,
    /// Configuration of the inner values
    pub item_config: BuilderConfig<Item, ItemBackend>,
}

impl<Item: ArrayElement, ItemBackend: TypedBackend<Item>> ListConfig<Item, ItemBackend> {
    /// Name to give to the list item field
    pub fn item_field_name(&self) -> (name: String)
        ensures
            name@ == match self.item_name {
                Some(name) => name@,
                None => "item"@,
            },
    {
        match &self.item_name {
            Some(name) => name.clone(),
            None => "item".to_string(),
        }
    }
}

impl<Item: ArrayElement, ItemBackend: TypedBackend<Item>> Default for ListConfig<
    Item,
    ItemBackend,
> where ItemBackend::ExtraConfig: Default {
    /// Lists of items with the default configuration, in a field with the
    /// default name
    fn default() -> (config: Self)
        ensures
            config.item_name is None,
            config.item_config matches BuilderConfig::Standard { capacity: None, .. },
    {
        Self { item_name: None, item_config: BuilderConfig::new() }
    }
}

impl<Item: ArrayElement, ItemBackend: TypedBackend<Item>> Clone for ListConfig<Item, ItemBackend> where
    ItemBackend::ExtraConfig: Clone,
    ItemBackend::AlternateConfig: Clone,
 {
    fn clone(&self) -> (config: Self)
        ensures
            config.item_name == self.item_name,
    {
        let item_name = match &self.item_name {
            Some(name) => Some(name.clone()),
            None => None,
        };
        Self { item_name, item_config: self.item_config.clone() }
    }
}

impl<Item: ArrayElement, ItemBackend: TypedBackend<Item>> PartialEq for ListConfig<Item, ItemBackend> where
    ItemBackend::ExtraConfig: PartialEq,
    ItemBackend::AlternateConfig: PartialEq,
 {
    /// Two list configurations are equal when they name the item field
    /// alike and configure the items alike
    fn eq(&self, other: &Self) -> (equal: bool) {
        let same_name = match (&self.item_name, &other.item_name) {
            (Some(name), Some(other_name)) => *name == *other_name,
            (None, None) => true,
            _ => false,
        };
        same_name && self.item_config == other.item_config
    }
}

impl<Item: ArrayElement, ItemBackend: TypedBackend<Item>> PartialEqSpecImpl for ListConfig<Item, ItemBackend> where
    ItemBackend::ExtraConfig: PartialEq,
    ItemBackend::AlternateConfig: PartialEq,
 {
    /// `==` on list configurations does as stated where `==` on the
    /// configuration of the items does
    open spec fn obeys_eq_spec() -> bool {
        &&& <ItemBackend::ExtraConfig as PartialEqSpec>::obeys_eq_spec()
        &&& <ItemBackend::AlternateConfig as PartialEqSpec>::obeys_eq_spec()
    }

    /// Same item name and equal item configuration: both standard, of the
    /// same capacity and with equal extra configurations, or both alternate
    /// and equal
    open spec fn eq_spec(&self, other: &Self) -> bool {
        &&& same_item_name(self.item_name, other.item_name)
        &&& match (self.item_config, other.item_config) {
            (
                BuilderConfig::Standard { capacity: c1, extra: e1 },
                BuilderConfig::Standard { capacity: c2, extra: e2 },
            ) => c1 == c2 && e1.eq_spec(&e2),
            (BuilderConfig::Alternate(a1), BuilderConfig::Alternate(a2)) => a1.eq_spec(&a2),
            _ => false,
        }
    }
}

/// Two list configurations are equal exactly when they name the item field
/// alike and the configurations of their items are equal
pub proof fn lemma_list_config_equality<Item, ItemBackend>(
    config: ListConfig<Item, ItemBackend>,
    other: ListConfig<Item, ItemBackend>,
) where
    Item: ArrayElement,
    ItemBackend: TypedBackend<Item>,
    ItemBackend::ExtraConfig: PartialEq,
    ItemBackend::AlternateConfig: PartialEq,

    ensures
        <ListConfig<Item, ItemBackend> as PartialEqSpec>::obeys_eq_spec() == <BuilderConfig<
            Item,
            ItemBackend,
        > as PartialEqSpec>::obeys_eq_spec(),
        <ListConfig<Item, ItemBackend> as PartialEqSpec>::eq_spec(&config, &other) == (
        same_item_name(config.item_name, other.item_name) && <BuilderConfig<
            Item,
            ItemBackend,
        > as PartialEqSpec>::eq_spec(&config.item_config, &other.item_config)),
{
}

/// Truth that two list configurations name the item field alike
pub open spec fn same_item_name(name: Option<String>, other: Option<String>) -> bool {
    match (name, other) {
        (Some(name), Some(other)) => name@ == other@,
        (None, None) => true,
        _ => false,
    }
}

/// Sublists to append one after the other for the bulk insertion of `slice`
/// into a builder of lists, or the reason why the insertion is rejected
///
/// The insertion is rejected if the sublists do not hold as many items
/// together as the slice has.
pub fn sublists_to_push<Items, Lists>(slice: &ListSlice<Items, Lists>) -> (result: Result<
    Vec<<ListSlice<Items, Lists> as Slice>::Element>,
    ExtendError,
>) where Items: Slice, Lists: SublistSlice, Lists::LenValidity: ApplyValidity<Items>
    ensures
        result is Ok <==> slice.consistent(),
        result matches Ok(sublists) ==> element_models(sublists@) == slice.model(),
        result matches Err(error) ==> error == ExtendError::SublistLengthMismatch,
{
    if !slice.is_consistent() {
        return Err(ExtendError::SublistLengthMismatch);
    }
    Ok(slice.iter_cloned())
}

/// Values and validity flags to append for the bulk insertion of `slice`
/// into a builder of optional values, or the reason why the insertion is
/// rejected
///
/// The insertion is rejected if the slice does not hold as many values as
/// validity flags.
pub fn values_to_append<Values, Validity>(slice: &OptionSlice<Values, Validity>) -> (result: Result<
    (Values, Validity),
    ExtendError,
>) where Values: Slice, Validity: Slice<Element = bool>
    ensures
        result is Ok <==> slice.consistent(),
        result matches Ok(parts) ==> parts.0 == slice.values && parts.1 == slice.is_valid,
        result matches Err(error) ==> error == ExtendError::ValidityLengthMismatch,
{
    if !slice.is_consistent() {
        return Err(ExtendError::ValidityLengthMismatch);
    }
    Ok((slice.values, slice.is_valid))
}

} // verus!
