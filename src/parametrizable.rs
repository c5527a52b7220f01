use vstd::prelude::*;

verus! {

/// The kind of value a parameter takes.
#[derive(Debug, Clone, Copy, PartialEq, Eq, Structural)]
pub enum ParameterType {
    /// An integer within `min..=max`.
    IntRange { min: i64, max: i64 },
    StringParameter,
    BoolParameter,
}

/// A supplied parameter value.
#[derive(Debug, Clone)]
pub enum ParameterValue {
    IntRange(i64),
    StringParameter(String),
    BoolParameter(bool),
}

/// Whether a parameter must be supplied, or falls back to a default.
#[derive(Debug, Clone)]
pub enum ParameterTypeDescriptor {
    Mandatory(ParameterType),
    Optional(ParameterType, ParameterValue),
}

/// Why a node could not be built from its parameters.
#[derive(Debug, Clone)]
pub enum ConfigError {
    /// A mandatory parameter was not supplied.
    Missing(String),
    /// A supplied value does not have the declared kind, or is out of range.
    TypeMismatch(String),
    /// No node is registered under this name.
    UnknownNode(String),
}

/// Whether `v` is a value of kind `t`.
pub open spec fn value_fits(t: ParameterType, v: ParameterValue) -> bool {
    match (t, v) {
        (ParameterType::IntRange { min, max }, ParameterValue::IntRange(x)) => min <= x <= max,
        (ParameterType::StringParameter, ParameterValue::StringParameter(_)) => true,
        (ParameterType::BoolParameter, ParameterValue::BoolParameter(_)) => true,
        _ => false,
    }
}

/// Whether `v` is a value of kind `t`.
pub fn value_matches(t: &ParameterType, v: &ParameterValue) -> (r: bool)
    ensures
        r == value_fits(*t, *v),
{
    match (t, v) {
        (ParameterType::IntRange { min, max }, ParameterValue::IntRange(x)) => *min <= *x && *x
            <= *max,
        (ParameterType::StringParameter, ParameterValue::StringParameter(_)) => true,
        (ParameterType::BoolParameter, ParameterValue::BoolParameter(_)) => true,
        _ => false,
    }
}

/// The value of the first entry named `name`.
pub open spec fn lookup(entries: Seq<(String, ParameterValue)>, name: Seq<char>) -> Option<
    ParameterValue,
>
    decreases entries.len(),
{
    if entries.len() == 0 {
        None
    } else if entries[0].0@ == name {
        Some(entries[0].1)
    } else {
        lookup(entries.drop_first(), name)
    }
}

/// A parameter bag: names with typed values.
pub struct Parameters {
    pub entries: Vec<(String, ParameterValue)>,
}

impl Parameters {
    pub open spec fn spec_get(&self, name: Seq<char>) -> Option<ParameterValue> {
        lookup(self.entries@, name)
    }

    /// An empty bag.
    pub fn new() -> (r: Parameters)
        ensures
            r.entries@.len() == 0,
    {
        Parameters { entries: Vec::new() }
    }

    /// Adds `value` under `name`, unless the bag names it already.
    pub fn insert(&mut self, name: String, value: ParameterValue) -> (r: bool)
        ensures
            r == (old(self).spec_get(name@) is None),
            r ==> final(self).entries@ == old(self).entries@.push((name, value)),
            !r ==> final(self).entries@ == old(self).entries@,
            forall|n: Seq<char>| #[trigger] final(self).spec_get(n) == if r && n == name@ {
                Some(value)
            } else {
                old(self).spec_get(n)
            },
    {
        if self.find(&name).is_some() {
            return false;
        }
        let ghost before = self.entries@;
        self.entries.push((name, value));
        proof {
            assert forall|n: Seq<char>| #[trigger] lookup(self.entries@, n) == if n == name@ {
                Some(value)
            } else {
                lookup(before, n)
            } by {
                lemma_lookup_push(before, name, value, n);
            }
        }
        true
    }

    /// The index of the first entry named `name`.
    fn find(&self, name: &String) -> (r: Option<usize>)
        ensures
            r is None <==> self.spec_get(name@) is None,
            r matches Some(i) ==> i < self.entries@.len() && self.spec_get(name@) == Some(
                self.entries@[i as int].1,
            ),
    {
        let mut i: usize = 0;
        proof {
            assert(self.entries@.subrange(0, self.entries@.len() as int) =~= self.entries@);
        }
        while i < self.entries.len()
            invariant
                i <= self.entries@.len(),
                lookup(self.entries@, name@) == lookup(self.entries@.subrange(i as int, self.entries@.len() as int), name@),
            decreases self.entries@.len() - i,
        {
            let ghost rest = self.entries@.subrange(i as int, self.entries@.len() as int);
            proof {
                assert(rest.drop_first() =~= self.entries@.subrange(i + 1, self.entries@.len() as int));
            }
            if self.entries[i].0 == *name {
                return Some(i);
            }
            i += 1;
        }
        None
    }

    /// The value supplied under `name`, if any.
    pub fn get(&self, name: &str) -> (r: Option<&ParameterValue>)
        ensures
            match r {
                Some(v) => self.spec_get(name@) == Some(*v),
                None => self.spec_get(name@) is None,
            },
    {
        let key = String::from_str(name);
        match self.find(&key) {
            Some(i) => Some(&self.entries[i].1),
            None => None,
        }
    }
}

proof fn lemma_lookup_push(
    entries: Seq<(String, ParameterValue)>,
    name: String,
    value: ParameterValue,
    n: Seq<char>,
)
    requires
        lookup(entries, name@) is None,
    ensures
        lookup(entries.push((name, value)), n) == if n == name@ {
            Some(value)
        } else {
            lookup(entries, n)
        },
    decreases entries.len(),
{
    let pushed = entries.push((name, value));
    if entries.len() == 0 {
        assert(pushed.drop_first() =~= Seq::<(String, ParameterValue)>::empty());
    } else {
        assert(pushed.drop_first() =~= entries.drop_first().push((name, value)));
        assert(pushed[0] == entries[0]);
        lemma_lookup_push(entries.drop_first(), name, value, n);
    }
}

/// Whether the bag satisfies the declared parameter `(name, d)`.
pub open spec fn entry_satisfied(
    name: Seq<char>,
    d: ParameterTypeDescriptor,
    params: Parameters,
) -> bool {
    match params.spec_get(name) {
        None => d is Optional,
        Some(v) => match d {
            ParameterTypeDescriptor::Mandatory(t) => value_fits(t, v),
            ParameterTypeDescriptor::Optional(t, _) => value_fits(t, v),
        },
    }
}

/// The error for an unsatisfied declared parameter `(name, d)`.
pub open spec fn entry_error(
    name: String,
    params: Parameters,
) -> ConfigError {
    match params.spec_get(name@) {
        None => ConfigError::Missing(name),
        Some(_) => ConfigError::TypeMismatch(name),
    }
}

/// The parameters a node declares, in declaration order.
pub struct ParametersDescriptor {
    pub entries: Vec<(String, ParameterTypeDescriptor)>,
}

impl ParametersDescriptor {
    /// Whether `params` satisfies every declared parameter.
    pub open spec fn accepts(&self, params: Parameters) -> bool {
        forall|i: int|
            0 <= i < self.entries@.len() ==> entry_satisfied(
                #[trigger] self.entries@[i].0@,
                self.entries@[i].1,
                params,
            )
    }

    /// A schema that declares nothing.
    pub fn new() -> (r: ParametersDescriptor)
        ensures
            r.entries@.len() == 0,
    {
        ParametersDescriptor { entries: Vec::new() }
    }

    /// This schema with one more declared parameter.
    pub fn with(self, name: &str, descriptor: ParameterTypeDescriptor) -> (r: ParametersDescriptor)
        ensures
            r.entries@.len() == self.entries@.len() + 1,
            r.entries@.drop_last() == self.entries@,
            r.entries@.last().0@ == name@,
            r.entries@.last().1 == descriptor,
    {
        let mut entries = self.entries;
        entries.push((String::from_str(name), descriptor));
        ParametersDescriptor { entries }
    }

    /// Checks `params` against the schema. Fails on the first declared
    /// parameter that is mandatory and missing, or supplied with a value of
    /// the wrong kind.
    pub fn validate(&self, params: &Parameters) -> (r: Result<(), ConfigError>)
        ensures
            r is Ok <==> self.accepts(*params),
            r matches Err(e) ==> exists|i: int|
                0 <= i < self.entries@.len() && !entry_satisfied(
                    self.entries@[i].0@,
                    self.entries@[i].1,
                    *params,
                ) && (forall|j: int|
                    0 <= j < i ==> entry_satisfied(
                        #[trigger] self.entries@[j].0@,
                        self.entries@[j].1,
                        *params,
                    )) && e == entry_error(self.entries@[i].0, *params),
    {
        let mut i: usize = 0;
        while i < self.entries.len()
            invariant
                i <= self.entries@.len(),
                forall|j: int|
                    0 <= j < i ==> entry_satisfied(
                        #[trigger] self.entries@[j].0@,
                        self.entries@[j].1,
                        *params,
                    ),
            decreases self.entries@.len() - i,
        {
            let name = &self.entries[i].0;
            let (kind, optional) = match &self.entries[i].1 {
                ParameterTypeDescriptor::Mandatory(t) => (*t, false),
                ParameterTypeDescriptor::Optional(t, _) => (*t, true),
            };
            match params.find(name) {
                None => {
                    if !optional {
                        return Err(ConfigError::Missing(name.clone()));
                    }
                },
                Some(k) => {
                    if !value_matches(&kind, &params.entries[k].1) {
                        return Err(ConfigError::TypeMismatch(name.clone()));
                    }
                },
            }
            i += 1;
        }
        Ok(())
    }
}

} // verus!
