use vstd::prelude::*;

verus! {

/// A labelled uniform block with the value it starts from.
pub struct UniformBuffer<T: Default> {
    label: String,
    init_value: T,
}

impl<T: Default> UniformBuffer<T> {
    /// The label given at construction.
    pub closed spec fn label_of(&self) -> Seq<char> {
        self.label@
    }

    /// The value the block starts from.
    pub closed spec fn init_value_of(&self) -> T {
        self.init_value
    }

    /// A block named `label` that starts from the default value of `T`.
    pub fn new(label: &str) -> (buffer: Self)
        ensures
            buffer.label_of() == label@,
            call_ensures(T::default, (), buffer.init_value_of()),
    {
        UniformBuffer { label: label.to_string(), init_value: T::default() }
    }

    pub fn label(&self) -> (label: &str)
        ensures
            label@ == self.label_of(),
    {
        self.label.as_str()
    }

    pub fn init_value(&self) -> (value: &T)
        ensures
            *value == self.init_value_of(),
    {
        &self.init_value
    }
}

} // verus!
