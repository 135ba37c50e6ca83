//! The material registry: names, numeric ids and material parameters.
//!
//! Materials are registered under distinct names and receive consecutive ids in
//! the order of registration, starting at 0. The id of a material is the index the
//! simulator uses to find its parameters.
use vstd::prelude::*;
use vstd::std_specs::cmp::PartialEqSpecImpl;

verus! {

broadcast use vstd::string::to_string_from_display_ensures_for_str;

/// The name of a material.
#[derive(Debug, Clone, Hash)]
pub struct MaterialName(String);

impl View for MaterialName {
    type V = Seq<char>;

    closed spec fn view(&self) -> Seq<char> {
        self.0@
    }
}

impl MaterialName {
    /// The material name spelled by `value`.
    pub fn new(value: &str) -> (name: MaterialName)
        ensures
            name@ == value@,
    {
        MaterialName(value.to_string())
    }

    /// The name as a string slice.
    pub fn as_str(&self) -> (s: &str)
        ensures
            s@ == self@,
    {
        self.0.as_str()
    }

    /// The name as an owned string.
    pub fn to_string(&self) -> (s: String)
        ensures
            s@ == self@,
    {
        self.0.clone()
    }

    /// A copy of this name.
    pub fn duplicate(&self) -> (n: MaterialName)
        ensures
            n@ == self@,
    {
        MaterialName(self.0.clone())
    }
}

impl PartialEq for MaterialName {
    fn eq(&self, other: &Self) -> (r: bool) {
        self.0 == other.0
    }
}

impl PartialEqSpecImpl for MaterialName {
    open spec fn obeys_eq_spec() -> bool {
        true
    }

    open spec fn eq_spec(&self, other: &Self) -> bool {
        self@ == other@
    }
}

impl Eq for MaterialName {
}

/// The numeric id of a registered material: its position in registration order.
#[derive(Debug, Clone, Copy)]
pub struct MaterialId(u32);

impl MaterialId {
    /// The id as a number.
    pub closed spec fn spec_value(self) -> u32 {
        self.0
    }

    /// The id as a number.
    pub fn value(&self) -> (v: u32)
        ensures
            v == self.spec_value(),
    {
        self.0
    }
}

/// The definition of one material: its name and its parameters of kind `K`.
#[derive(Debug)]
pub struct MaterialDescriptor<K> {
    name: MaterialName,
    kind: K,
}

impl<K> MaterialDescriptor<K> {
    /// The name of the material.
    pub closed spec fn spec_name(self) -> Seq<char> {
        self.name@
    }

    /// The parameters of the material.
    pub closed spec fn spec_kind(self) -> K {
        self.kind
    }

    /// A material called `name` with the parameters `kind`.
    pub fn new(name: MaterialName, kind: K) -> (material: Self)
        ensures
            material.spec_name() == name@,
            material.spec_kind() == kind,
    {
        MaterialDescriptor { name, kind }
    }

    /// The name of the material.
    pub fn name(&self) -> (name: &MaterialName)
        ensures
            name@ == self.spec_name(),
    {
        &self.name
    }

    /// The parameters of the material.
    pub fn kind(&self) -> (kind: &K)
        ensures
            *kind == self.spec_kind(),
    {
        &self.kind
    }
}

/// Why the registry refused a request.
#[derive(Debug)]
pub enum MaterialError {
    /// A material with this name is already registered.
    Conflict(MaterialName),
    /// No material with this name is registered.
    NotFound(String),
    /// The next id would not fit in a `u32`.
    TooManyMaterials,
}

/// The registry of materials. The material with id `i` is the `i`-th one registered.
#[derive(Debug)]
pub struct MaterialDict<K> {
    entries: Vec<MaterialDescriptor<K>>,
}

/// The names in `names` are pairwise distinct.
pub open spec fn names_distinct(names: Seq<Seq<char>>) -> bool {
    forall|i: int, j: int| 0 <= i < names.len() && 0 <= j < names.len() && i != j ==> names[i] != names[j]
}

/// Law: in a registry that has just registered `name` after the materials `names`,
/// the only position holding `name` is `names.len()`. With the contracts of
/// `register` and `lookup` this gives: a material is found under the id equal to
/// the number of materials registered before it.
pub proof fn lemma_registered_id(names: Seq<Seq<char>>, name: Seq<char>, id: int)
    requires
        names_distinct(names.push(name)),
        0 <= id <= names.len(),
        names.push(name)[id] == name,
    ensures
        id == names.len(),
{
    if id < names.len() {
        assert(names.push(name)[names.len() as int] == name);
    }
}

/// Law: in a registry, whose names are distinct (as `len` and `entries` state), each
/// registered name sits at exactly one position. With the contract of `lookup` this
/// gives: the material at position `i` is found under id `i` and no other, so the ids
/// of a registry of `n` materials are exactly `0, 1, ..., n - 1`.
pub proof fn lemma_ids_dense(names: Seq<Seq<char>>, i: int, id: int)
    requires
        names_distinct(names),
        0 <= i < names.len(),
        0 <= id < names.len(),
        names[id] == names[i],
    ensures
        id == i,
{
}

impl<K> MaterialDict<K> {
    #[verifier::type_invariant]
    spec fn registry_wf(self) -> bool {
        &&& names_distinct(self.names())
        &&& self.entries@.len() <= u32::MAX + 1
    }

    /// The names of the registered materials, in id order.
    pub closed spec fn names(self) -> Seq<Seq<char>> {
        self.entries@.map_values(|e: MaterialDescriptor<K>| e.name@)
    }

    /// The parameters of the registered materials, in id order.
    pub closed spec fn kinds(self) -> Seq<K> {
        self.entries@.map_values(|e: MaterialDescriptor<K>| e.kind)
    }

    /// An empty registry.
    pub fn new() -> (dict: Self)
        ensures
            dict.names() == Seq::<Seq<char>>::empty(),
            dict.kinds() == Seq::<K>::empty(),
    {
        let d = MaterialDict { entries: Vec::new() };
        assert(d.names() =~= Seq::<Seq<char>>::empty());
        assert(d.kinds() =~= Seq::<K>::empty());
        d
    }

    /// The number of registered materials.
    pub fn len(&self) -> (n: usize)
        ensures
            n == self.names().len(),
            self.kinds().len() == self.names().len(),
            self.names().len() <= u32::MAX + 1,
            names_distinct(self.names()),
    {
        proof {
            use_type_invariant(self);
        }
        self.entries.len()
    }

    /// Position of `name` among the registered names, if it is registered.
    fn find(&self, name: &MaterialName) -> (r: Option<usize>)
        ensures
            match r {
                Some(i) => i < self.names().len() && self.names()[i as int] == name@,
                None => !self.names().contains(name@),
            },
    {
        let n = self.entries.len();
        let mut i: usize = 0;
        while i < n
            invariant
                0 <= i <= n,
                n == self.entries@.len(),
                forall|k: int| 0 <= k < i ==> self.names()[k] != name@,
            decreases n - i,
        {
            assert(self.names()[i as int] == self.entries@[i as int].name@);
            if self.entries[i].name.0 == name.0 {
                return Some(i);
            }
            i = i + 1;
        }
        None
    }

    /// Registers a material under its name; its id is the number of materials
    /// registered before it.
    ///
    /// Fails with `Conflict` when a material of the same name is registered, and
    /// with `TooManyMaterials` when the new id would not fit in a `u32`; the registry
    /// is then unchanged.
    pub fn register(&mut self, material: MaterialDescriptor<K>) -> (r: Result<&mut Self, MaterialError>)
        ensures
            match r {
                Ok(dict) => {
                    &&& !old(self).names().contains(material.spec_name())
                    &&& old(self).names().len() <= u32::MAX
                    &&& dict.names() == old(self).names().push(material.spec_name())
                    &&& dict.kinds() == old(self).kinds().push(material.spec_kind())
                    &&& names_distinct(dict.names())
                    &&& *final(self) == *final(dict)
                },
                Err(MaterialError::Conflict(name)) => {
                    &&& old(self).names().contains(material.spec_name())
                    &&& name@ == material.spec_name()
                    &&& final(self).names() == old(self).names()
                    &&& final(self).kinds() == old(self).kinds()
                },
                Err(MaterialError::TooManyMaterials) => {
                    &&& !old(self).names().contains(material.spec_name())
                    &&& old(self).names().len() > u32::MAX
                    &&& final(self).names() == old(self).names()
                    &&& final(self).kinds() == old(self).kinds()
                },
                Err(MaterialError::NotFound(_)) => false,
            },
    {
        proof {
            use_type_invariant(&*self);
        }
        match self.find(&material.name) {
            Some(_) => Err(MaterialError::Conflict(material.name)),
            None => {
                let n = self.entries.len();
                if n > 0xffff_ffffusize {
                    return Err(MaterialError::TooManyMaterials);
                }
                let ghost old_names = self.names();
                let ghost old_kinds = self.kinds();
                let mut entries: Vec<MaterialDescriptor<K>> = Vec::new();
                std::mem::swap(&mut entries, &mut self.entries);
                let ghost name = material.name@;
                let ghost kind = material.kind;
                entries.push(material);
                proof {
                    let new_names = entries@.map_values(|e: MaterialDescriptor<K>| e.name@);
                    assert(new_names =~= old_names.push(name));
                    assert(entries@.map_values(|e: MaterialDescriptor<K>| e.kind) =~= old_kinds.push(kind));
                    assert forall|i: int, j: int|
                        0 <= i < new_names.len() && 0 <= j < new_names.len() && i != j implies new_names[i]
                        != new_names[j] by {
                        if i == n as int {
                            assert(old_names[j] == new_names[j]);
                        } else if j == n as int {
                            assert(old_names[i] == new_names[i]);
                        }
                    }
                }
                self.entries = entries;
                Ok(self)
            },
        }
    }

    /// The registered name spelled by `material_name`.
    ///
    /// Fails with `NotFound` carrying the requested name when no material of that
    /// name is registered.
    pub fn get(&self, material_name: &str) -> (r: Result<MaterialName, MaterialError>)
        ensures
            match r {
                Ok(name) => name@ == material_name@ && self.names().contains(material_name@),
                Err(MaterialError::NotFound(s)) => s@ == material_name@ && !self.names().contains(
                    material_name@,
                ),
                Err(_) => false,
            },
    {
        let name = MaterialName::new(material_name);
        match self.find(&name) {
            Some(_) => Ok(name),
            None => Err(MaterialError::NotFound(material_name.to_string())),
        }
    }

    /// The id and parameters of the material called `name`, if it is registered.
    pub fn lookup(&self, name: &MaterialName) -> (r: Option<(MaterialId, &K)>)
        ensures
            match r {
                Some((id, kind)) => {
                    &&& id.spec_value() < self.names().len()
                    &&& self.names()[id.spec_value() as int] == name@
                    &&& *kind == self.kinds()[id.spec_value() as int]
                },
                None => !self.names().contains(name@),
            },
    {
        proof {
            use_type_invariant(self);
        }
        match self.find(name) {
            Some(i) => {
                let entry = &self.entries[i];
                Some((MaterialId(i as u32), &entry.kind))
            },
            None => None,
        }
    }

    /// The registered materials, in id order: the material at position `i` has id `i`.
    pub fn entries(&self) -> (entries: &Vec<MaterialDescriptor<K>>)
        ensures
            entries@.len() == self.names().len(),
            self.kinds().len() == self.names().len(),
            names_distinct(self.names()),
            forall|i: int| 0 <= i < entries@.len() ==> #[trigger] entries@[i].spec_name() == self.names()[i],
            forall|i: int| 0 <= i < entries@.len() ==> #[trigger] entries@[i].spec_kind() == self.kinds()[i],
    {
        proof {
            use_type_invariant(self);
        }
        &self.entries
    }
}

impl<K> Default for MaterialDict<K> {
    /// An empty registry.
    fn default() -> (dict: Self)
        ensures
            dict.names() == Seq::<Seq<char>>::empty(),
            dict.kinds() == Seq::<K>::empty(),
    {
        Self::new()
    }
}

impl<K: Clone> Clone for MaterialDescriptor<K> {
    /// A copy of the descriptor, with the same name and a clone of the parameters.
    fn clone(&self) -> (copy: Self)
        ensures
            copy.spec_name() == self.spec_name(),
            cloned::<K>(self.spec_kind(), copy.spec_kind()),
    {
        MaterialDescriptor { name: MaterialName(self.name.0.clone()), kind: self.kind.clone() }
    }
}

impl<K: Clone> Clone for MaterialDict<K> {
    /// A copy of the registry: the same names in the same id order, with cloned
    /// parameters.
    fn clone(&self) -> (copy: Self)
        ensures
            copy.names() == self.names(),
            copy.kinds().len() == self.kinds().len(),
            forall|i: int|
                0 <= i < self.kinds().len() ==> cloned::<K>(#[trigger] self.kinds()[i], copy.kinds()[i]),
    {
        proof {
            use_type_invariant(self);
        }
        let n = self.entries.len();
        let mut entries: Vec<MaterialDescriptor<K>> = Vec::new();
        let mut i: usize = 0;
        while i < n
            invariant
                0 <= i <= n,
                n == self.entries@.len(),
                entries@.len() == i,
                forall|k: int| 0 <= k < i ==> #[trigger] entries@[k].name@ == self.entries@[k].name@,
                forall|k: int| 0 <= k < i ==> cloned::<K>(self.entries@[k].kind, #[trigger] entries@[k].kind),
            decreases n - i,
        {
            entries.push(self.entries[i].clone());
            i = i + 1;
        }
        assert(entries@.map_values(|e: MaterialDescriptor<K>| e.name@) =~= self.names());
        let copy = MaterialDict { entries };
        assert forall|i: int| 0 <= i < self.kinds().len() implies cloned::<K>(
            #[trigger] self.kinds()[i],
            copy.kinds()[i],
        ) by {
            assert(self.kinds()[i] == self.entries@[i].kind);
            assert(copy.kinds()[i] == copy.entries@[i].kind);
        }
        copy
    }
}

} // verus!
