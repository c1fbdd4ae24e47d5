use vstd::prelude::*;

verus! {

/// The name of a field's data type (`"string"`, `"int32"`, ...).
pub type FieldType = String;

/// One field of a collection schema.
pub struct Field {
    pub name: String,
    pub field_type: FieldType,
    pub optional: Option<bool>,
    pub facet: Option<bool>,
    pub index: Option<bool>,
    pub locale: Option<String>,
    pub sort: Option<bool>,
    pub infix: Option<bool>,
    pub num_dim: Option<i32>,
    pub drop: Option<bool>,
}

impl Field {
    /// A field with a name and a type, and no other attribute set.
    pub fn new(name: String, field_type: FieldType) -> (r: Field)
        ensures
            r.name == name,
            r.field_type == field_type,
            r.optional is None,
            r.facet is None,
            r.index is None,
            r.locale is None,
            r.sort is None,
            r.infix is None,
            r.num_dim is None,
            r.drop is None,
    {
        Field {
            name,
            field_type,
            optional: None,
            facet: None,
            index: None,
            locale: None,
            sort: None,
            infix: None,
            num_dim: None,
            drop: None,
        }
    }
}

/// Builder for a `Field`.
pub struct FieldBuilder {
    /// The field under construction.
    pub inner: Field,
}

impl FieldBuilder {
    /// A builder for a field with this name and type and no other attribute.
    pub fn new(name: &str, typesense_type: FieldType) -> (r: FieldBuilder)
        ensures
            r.inner.name@ == name@,
            r.inner.field_type == typesense_type,
            r.inner.optional is None,
            r.inner.facet is None,
            r.inner.index is None,
            r.inner.locale is None,
            r.inner.sort is None,
            r.inner.infix is None,
            r.inner.num_dim is None,
            r.inner.drop is None,
    {
        FieldBuilder { inner: Field::new(name.to_owned(), typesense_type) }
    }

    /// Set if field is optional.
    pub fn optional(self, optional: Option<bool>) -> (r: FieldBuilder)
        ensures
            r.inner == (Field { optional, ..self.inner }),
    {
        let mut b = self;
        b.inner.optional = optional;
        b
    }

    /// Set if field is facet.
    pub fn facet(self, facet: Option<bool>) -> (r: FieldBuilder)
        ensures
            r.inner == (Field { facet, ..self.inner }),
    {
        let mut b = self;
        b.inner.facet = facet;
        b
    }

    /// Set if field is index.
    pub fn index(self, index: Option<bool>) -> (r: FieldBuilder)
        ensures
            r.inner == (Field { index, ..self.inner }),
    {
        let mut b = self;
        b.inner.index = index;
        b
    }

    /// Set field locale.
    pub fn locale(self, locale: Option<String>) -> (r: FieldBuilder)
        ensures
            r.inner == (Field { locale, ..self.inner }),
    {
        let mut b = self;
        b.inner.locale = locale;
        b
    }

    /// Set sort attribute for field.
    pub fn sort(self, sort: Option<bool>) -> (r: FieldBuilder)
        ensures
            r.inner == (Field { sort, ..self.inner }),
    {
        let mut b = self;
        b.inner.sort = sort;
        b
    }

    /// Set infix attribute for field.
    pub fn infix(self, infix: Option<bool>) -> (r: FieldBuilder)
        ensures
            r.inner == (Field { infix, ..self.inner }),
    {
        let mut b = self;
        b.inner.infix = infix;
        b
    }

    /// Set num_dim attribute for field.
    pub fn num_dim(self, num_dim: Option<i32>) -> (r: FieldBuilder)
        ensures
            r.inner == (Field { num_dim, ..self.inner }),
    {
        let mut b = self;
        b.inner.num_dim = num_dim;
        b
    }

    /// Set drop attribute for field.
    pub fn drop(self, drop: Option<bool>) -> (r: FieldBuilder)
        ensures
            r.inner == (Field { drop, ..self.inner }),
    {
        let mut b = self;
        b.inner.drop = drop;
        b
    }

    /// The field with the values set so far.
    pub fn build(self) -> (r: Field)
        ensures
            r == self.inner,
    {
        self.inner
    }
}

} // verus!
