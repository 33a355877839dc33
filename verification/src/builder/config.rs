//! Array builder configuration

use crate::builder::backend::list::ListConfig;
use crate::builder::backend::{Capacity, NoAlternateConfig, TypedBackend};
use crate::element::list::ListLike;
use crate::element::ArrayElement;
use vstd::prelude::*;
use vstd::std_specs::cmp::{PartialEqSpec, PartialEqSpecImpl};

verus! {

/// Configuration needed to construct a [`TypedBuilder`](crate::builder::TypedBuilder)
#[derive(Debug)]
pub enum BuilderConfig<T: ArrayElement, Backend: TypedBackend<T>> {
    /// Configuration for the standard new/with_capacity constructor
    Standard {
        /// Minimal number of elements this builder can accept without reallocating
        capacity: Option<usize>,
        /// Backend-specific configuration
        extra: Backend::ExtraConfig,
    },
    /// Configuration for alternate constructors, if available
    Alternate(Backend::AlternateConfig),
}

impl<T: ArrayElement, Backend: TypedBackend<T>> BuilderConfig<T, Backend> {
    /// Truth that this is the configuration of the standard constructor
    /// that asks for the capacity `capacity`, if any, and whose
    /// backend-specific part is what `Default::default()` makes
    pub open spec fn is_default_with(&self, capacity: Option<usize>) -> bool where
        Backend::ExtraConfig: Default,
     {
        match *self {
            BuilderConfig::Standard { capacity: requested, extra } => {
                &&& requested == capacity
                &&& call_ensures(<Backend::ExtraConfig as Default>::default, (), extra)
            },
            BuilderConfig::Alternate(_) => false,
        }
    }

    /// Configure a builder with its default configuration
    ///
    /// This is available for simple array element types like primitive
    /// types, where there is an obvious default builder configuration.
    pub fn new() -> (config: Self) where Backend::ExtraConfig: Default
        ensures
            config.is_default_with(None),
    {
        BuilderConfig::Standard { capacity: None, extra: Default::default() }
    }

    /// Configure a builder with space for at least `capacity` elements
    ///
    /// This is available for simple array element types like primitive
    /// types, where there is an obvious default builder configuration.
    pub fn with_capacity(capacity: usize) -> (config: Self) where Backend::ExtraConfig: Default
        ensures
            config.is_default_with(Some(capacity)),
    {
        BuilderConfig::Standard { capacity: Some(capacity), extra: Default::default() }
    }

    /// Cast between compatible configuration types
    ///
    /// Configuration types are compatible when they contain the same
    /// information, as those of an element type `T` and of `Option<T>` do.
    pub fn cast<U: ArrayElement, Other>(self) -> (config: BuilderConfig<U, Other>) where
        Other: TypedBackend<
            U,
            ExtraConfig = Backend::ExtraConfig,
            AlternateConfig = Backend::AlternateConfig,
        >,

        ensures
            match (self, config) {
                (
                    BuilderConfig::Standard { capacity, extra },
                    BuilderConfig::Standard { capacity: cast_capacity, extra: cast_extra },
                ) => cast_capacity == capacity && cast_extra == extra,
                (BuilderConfig::Alternate(alt), BuilderConfig::Alternate(cast_alt)) => cast_alt
                    == alt,
                _ => false,
            },
    {
        match self {
            BuilderConfig::Standard { capacity, extra } => BuilderConfig::Standard {
                capacity,
                extra,
            },
            BuilderConfig::Alternate(alt) => BuilderConfig::Alternate(alt),
        }
    }

    /// Capacity that the standard constructor is asked for, if any
    pub open spec fn spec_capacity_opt(&self) -> Option<usize> {
        match *self {
            BuilderConfig::Standard { capacity, .. } => capacity,
            BuilderConfig::Alternate(_) => None,
        }
    }

    /// Capacity that the standard constructor is asked for, if any
    #[verifier::when_used_as_spec(spec_capacity_opt)]
    pub fn capacity_opt(&self) -> (capacity: Option<usize>)
        ensures
            capacity == self.spec_capacity_opt(),
    {
        match self {
            BuilderConfig::Standard { capacity, .. } => *capacity,
            BuilderConfig::Alternate(_) => None,
        }
    }

    /// Expected capacity of an array builder made using this configuration
    ///
    /// In the case of types that are internally stored as multiple columnar
    /// buffers, like tuples, a lower bound on the capacity of all underlying
    /// columns is returned.
    ///
    /// In the case of lists, capacity should be understood as the number of
    /// lists that can be pushed without reallocating _assuming enough capacity
    /// to store all items in the inner items builder_.
    pub fn capacity(&self) -> (capacity: usize)
        ensures
            self matches BuilderConfig::Standard { capacity: Some(requested), .. } ==> capacity
                == requested,
            self matches BuilderConfig::Standard { capacity: None, .. } ==> capacity == 0,
            self matches BuilderConfig::Alternate(alternate) ==> capacity >= alternate.reserved(),
    {
        match self {
            BuilderConfig::Standard { capacity, .. } => match capacity {
                Some(capacity) => *capacity,
                None => 0,
            },
            BuilderConfig::Alternate(alt) => alt.capacity(),
        }
    }
}

/// The following methods are available on the configuration of builders of
/// lists and of optional lists.
impl<List, Backend, ItemBackend> BuilderConfig<List, Backend> where
    List: ListLike,
    ItemBackend: TypedBackend<List::Item>,
    Backend: TypedBackend<
        List,
        ExtraConfig = ListConfig<List::Item, ItemBackend>,
        AlternateConfig = NoAlternateConfig,
    >,
 {
    /// Configure a builder for an array of lists
    ///
    /// This method is meant be used as an alternative to
    /// `new()`/`with_capacity()` when either of the following is true:
    ///
    /// - The list item type does not have a default configuration (e.g. this is
    ///   a list of tuples or a list of fixed-size lists), and thus the easy
    ///   `new()` and `with_capacity()` constructors are unavailable.
    /// - You do not want to use the default configuration of the item type
    ///   (e.g. you want the inner array of items to have a certain capacity in
    ///   order to avoid reallocations when list items are pushed).
    ///
    /// The `capacity` argument can be used to set the list builder's capacity,
    /// i.e. the minimal number of lists that can be pushed without an offset
    /// buffer reallocation. When it is set to `None` this constructor behaves
    /// like `new()`, and when it is set to `Some(capacity)` this constructor
    /// behaves like `with_capacity()`.
    ///
    /// The `item_config` argument is used to configure the inner builder of
    /// items on top of which the builder of lists is built.
    pub fn new_list(
        capacity: Option<usize>,
        item_config: BuilderConfig<List::Item, ItemBackend>,
    ) -> (config: Self)
        ensures
            config == (BuilderConfig::<List, Backend>::Standard {
                capacity,
                extra: ListConfig { item_name: None, item_config },
            }),
    {
        BuilderConfig::Standard { capacity, extra: ListConfig { item_name: None, item_config } }
    }

    /// Set the name of the list array's item field
    ///
    /// By default, list items get the conventional field name "item".
    pub fn with_item_name(self, item_name: String) -> (config: Self)
        ensures
            match (self, config) {
                (
                    BuilderConfig::Standard { capacity, extra },
                    BuilderConfig::Standard { capacity: named_capacity, extra: named_extra },
                ) => {
                    &&& named_capacity == capacity
                    &&& named_extra.item_name == Some(item_name)
                    &&& named_extra.item_config == extra.item_config
                },
                _ => false,
            },
    {
        match self {
            BuilderConfig::Standard { capacity, extra } => BuilderConfig::Standard {
                capacity,
                extra: ListConfig { item_name: Some(item_name), item_config: extra.item_config },
            },
            BuilderConfig::Alternate(alternate) => {
                proof {
                    use_type_invariant(&alternate);
                }
                BuilderConfig::Alternate(alternate)
            },
        }
    }
}

impl<T: ArrayElement, Backend: TypedBackend<T>> Clone for BuilderConfig<T, Backend> where
    Backend::ExtraConfig: Clone,
    Backend::AlternateConfig: Clone,
 {
    fn clone(&self) -> (config: Self)
        ensures
            config is Standard <==> self is Standard,
            config.spec_capacity_opt() == self.spec_capacity_opt(),
    {
        match self {
            BuilderConfig::Standard { capacity, extra } => BuilderConfig::Standard {
                capacity: *capacity,
                extra: extra.clone(),
            },
            BuilderConfig::Alternate(alternate) => BuilderConfig::Alternate(alternate.clone()),
        }
    }
}

impl<T: ArrayElement, Backend: TypedBackend<T>> Default for BuilderConfig<T, Backend> where
    Backend::ExtraConfig: Default,
 {
    /// The default configuration, which asks for no capacity
    fn default() -> (config: Self)
        ensures
            config.is_default_with(None),
    {
        BuilderConfig::Standard { capacity: None, extra: Default::default() }
    }
}

impl<T: ArrayElement, Backend: TypedBackend<T>> PartialEq for BuilderConfig<T, Backend> where
    Backend::ExtraConfig: PartialEq,
    Backend::AlternateConfig: PartialEq,
 {
    /// Two configurations are equal when they are for the same constructor
    /// and configure it in the same way
    fn eq(&self, other: &Self) -> (equal: bool) {
        match (self, other) {
            (
                BuilderConfig::Standard { capacity: c1, extra: e1 },
                BuilderConfig::Standard { capacity: c2, extra: e2 },
            ) => *c1 == *c2 && *e1 == *e2,
            (BuilderConfig::Alternate(a1), BuilderConfig::Alternate(a2)) => *a1 == *a2,
            (BuilderConfig::Standard { .. }, BuilderConfig::Alternate(_)) | (
                BuilderConfig::Alternate(_),
                BuilderConfig::Standard { .. },
            ) => false,
        }
    }
}

impl<T: ArrayElement, Backend: TypedBackend<T>> PartialEqSpecImpl for BuilderConfig<T, Backend> where
    Backend::ExtraConfig: PartialEq,
    Backend::AlternateConfig: PartialEq,
 {
    open spec fn obeys_eq_spec() -> bool {
        &&& Backend::ExtraConfig::obeys_eq_spec()
        &&& Backend::AlternateConfig::obeys_eq_spec()
    }

    open spec fn eq_spec(&self, other: &Self) -> bool {
        match (self, other) {
            (
                BuilderConfig::Standard { capacity: c1, extra: e1 },
                BuilderConfig::Standard { capacity: c2, extra: e2 },
            ) => c1 == c2 && e1.eq_spec(e2),
            (BuilderConfig::Alternate(a1), BuilderConfig::Alternate(a2)) => a1.eq_spec(a2),
            _ => false,
        }
    }
}

} // verus!
