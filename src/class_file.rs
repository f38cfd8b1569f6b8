use vstd::prelude::*;

verus! {

/// The declared type of a method argument or of a method result.
#[derive(Clone, Copy, Debug, PartialEq, Eq, Structural)]
pub enum ValueType {
    Void,
    Integer,
    Reference,
}

/// A method's declared signature: argument types in declaration order and the result type.
#[derive(Debug)]
pub struct Signature {
    pub arguments: Vec<ValueType>,
    pub return_type: ValueType,
}

/// One entry of a class's constant table.
#[derive(Debug)]
pub enum ConstantType {
    Utf8 { value: String },
    Class { name_index: u16 },
    MethodRef { class_index: u16, name_and_type_index: u16 },
    NameAndType { name_index: u16, descriptor_index: u16 },
    /// Any other kind of constant; never followed by the interpreter.
    Unsupported,
}

/// A decoded instruction. Branch operands are absolute positions in the method's
/// instruction sequence.
#[derive(Clone, Copy, Debug, PartialEq, Eq, Structural)]
pub enum Instruction {
    IConstM1,
    IConst0,
    IConst1,
    IConst2,
    IConst3,
    IConst4,
    IConst5,
    AConstNull,
    BIPush(i8),
    SIPush(i16),
    ILoad(u8),
    ILoad0,
    ILoad1,
    ILoad2,
    ILoad3,
    IStore(u8),
    IStore0,
    IStore1,
    IStore2,
    IStore3,
    IAdd,
    ISub,
    IMul,
    IfICmpGe(u16),
    Goto(u16),
    IReturn,
    Return,
    InvokeStatic(u16),
    /// A decoded opcode that the interpreter does not implement.
    Unsupported(u8),
}

/// A method as handed over by the class-file decoder.
#[derive(Debug)]
pub struct Method {
    pub name: String,
    pub descriptor: String,
    pub signature: Signature,
    pub max_locals: u16,
    pub max_stack: u16,
    pub code: Vec<Instruction>,
}

/// A class as handed over by the class-file decoder.
#[derive(Debug)]
pub struct ClassFile {
    pub name: String,
    pub methods: Vec<Method>,
    pub constants: Vec<ConstantType>,
}

/// An optional position, as a mathematical integer.
pub open spec fn position(r: Option<usize>) -> Option<int> {
    match r {
        Some(i) => Some(i as int),
        None => None,
    }
}

/// The constant at `index`, if the table has one there.
pub open spec fn constant_at(consts: Seq<ConstantType>, index: int) -> Option<ConstantType> {
    if 0 <= index < consts.len() {
        Some(consts[index])
    } else {
        None
    }
}

/// The text of the UTF-8 constant at `index`.
pub open spec fn utf8_at(consts: Seq<ConstantType>, index: int) -> Option<Seq<char>> {
    match constant_at(consts, index) {
        Some(ConstantType::Utf8 { value }) => Some(value@),
        _ => None,
    }
}

/// The class name that the class constant at `index` refers to, when the chain
/// class constant -> UTF-8 constant is intact.
pub open spec fn class_name_at(consts: Seq<ConstantType>, index: int) -> Option<Seq<char>> {
    match constant_at(consts, index) {
        Some(ConstantType::Class { name_index }) => utf8_at(consts, name_index as int),
        _ => None,
    }
}

/// The (name, descriptor) pair of the name-and-type constant at `index`.
pub open spec fn name_and_type_at(consts: Seq<ConstantType>, index: int) -> Option<
    (Seq<char>, Seq<char>),
> {
    match constant_at(consts, index) {
        Some(ConstantType::NameAndType { name_index, descriptor_index }) => {
            match (utf8_at(consts, name_index as int), utf8_at(consts, descriptor_index as int)) {
                (Some(n), Some(d)) => Some((n, d)),
                _ => None,
            }
        },
        _ => None,
    }
}

pub open spec fn method_matches(m: Method, name: Seq<char>, descriptor: Seq<char>) -> bool {
    m.name@ == name && m.descriptor@ == descriptor
}

/// Position of the first method at or after `start` with the given name and descriptor.
pub open spec fn find_method_from(
    methods: Seq<Method>,
    name: Seq<char>,
    descriptor: Seq<char>,
    start: int,
) -> Option<int>
    decreases methods.len() - start,
{
    if start < 0 || start >= methods.len() {
        None
    } else if method_matches(methods[start], name, descriptor) {
        Some(start)
    } else {
        find_method_from(methods, name, descriptor, start + 1)
    }
}

/// Position of the first method with the given name, at or after `start`.
pub open spec fn find_named_from(methods: Seq<Method>, name: Seq<char>, start: int) -> Option<int>
    decreases methods.len() - start,
{
    if start < 0 || start >= methods.len() {
        None
    } else if methods[start].name@ == name {
        Some(start)
    } else {
        find_named_from(methods, name, start + 1)
    }
}

pub proof fn lemma_find_method_bounds(
    methods: Seq<Method>,
    name: Seq<char>,
    descriptor: Seq<char>,
    start: int,
)
    requires
        0 <= start,
    ensures
        find_method_from(methods, name, descriptor, start) matches Some(p) ==> start <= p
            < methods.len() && method_matches(methods[p], name, descriptor),
    decreases methods.len() - start,
{
    if start < methods.len() {
        lemma_find_method_bounds(methods, name, descriptor, start + 1);
    }
}

pub proof fn lemma_find_named_bounds(methods: Seq<Method>, name: Seq<char>, start: int)
    requires
        0 <= start,
    ensures
        find_named_from(methods, name, start) matches Some(p) ==> start <= p < methods.len()
            && methods[p].name@ == name,
    decreases methods.len() - start,
{
    if start < methods.len() {
        lemma_find_named_bounds(methods, name, start + 1);
    }
}

impl ClassFile {
    pub fn get_class_name(&self) -> (r: &String)
        ensures
            r@ == self.name@,
    {
        &self.name
    }

    /// The constant at `index`, or `None` past the end of the table.
    pub fn get_constant(&self, index: u16) -> (r: Option<&ConstantType>)
        ensures
            match r {
                Some(c) => constant_at(self.constants@, index as int) == Some(*c),
                None => constant_at(self.constants@, index as int) is None,
            },
    {
        if (index as usize) < self.constants.len() {
            Some(&self.constants[index as usize])
        } else {
            None
        }
    }

    /// The text of the UTF-8 constant at `index`.
    pub fn get_utf8(&self, index: u16) -> (r: Option<&String>)
        ensures
            match r {
                Some(s) => utf8_at(self.constants@, index as int) == Some(s@),
                None => utf8_at(self.constants@, index as int) is None,
            },
    {
        match self.get_constant(index) {
            Some(ConstantType::Utf8 { value }) => Some(value),
            _ => None,
        }
    }

    /// Resolves the name-and-type constant at `index` to its name and descriptor.
    pub fn get_name_and_type(&self, index: u16) -> (r: Option<(&String, &String)>)
        ensures
            match r {
                Some((n, d)) => name_and_type_at(self.constants@, index as int) == Some((n@, d@)),
                None => name_and_type_at(self.constants@, index as int) is None,
            },
    {
        match self.get_constant(index) {
            Some(ConstantType::NameAndType { name_index, descriptor_index }) => {
                match (self.get_utf8(*name_index), self.get_utf8(*descriptor_index)) {
                    (Some(n), Some(d)) => Some((n, d)),
                    _ => None,
                }
            },
            _ => None,
        }
    }

    /// Position of the first method with the given name and descriptor.
    pub fn find_method(&self, name: &String, descriptor: &String) -> (r: Option<usize>)
        ensures
            position(r) == find_method_from(self.methods@, name@, descriptor@, 0),
    {
        let mut i: usize = 0;
        while i < self.methods.len()
            invariant
                i <= self.methods.len(),
                find_method_from(self.methods@, name@, descriptor@, 0) == find_method_from(
                    self.methods@,
                    name@,
                    descriptor@,
                    i as int,
                ),
            decreases self.methods.len() - i,
        {
            if self.methods[i].name == *name && self.methods[i].descriptor == *descriptor {
                return Some(i);
            }
            i = i + 1;
        }
        None
    }

    /// Position of the first method named `name`.
    pub fn find_method_named(&self, name: &String) -> (r: Option<usize>)
        ensures
            position(r) == find_named_from(self.methods@, name@, 0),
    {
        let mut i: usize = 0;
        while i < self.methods.len()
            invariant
                i <= self.methods.len(),
                find_named_from(self.methods@, name@, 0) == find_named_from(
                    self.methods@,
                    name@,
                    i as int,
                ),
            decreases self.methods.len() - i,
        {
            if self.methods[i].name == *name {
                return Some(i);
            }
            i = i + 1;
        }
        None
    }

    /// Resolves a name-and-type constant of this class to a method of `target`.
    pub fn get_method_from_nat(&self, target: &ClassFile, nat_index: u16) -> (r: Option<usize>)
        ensures
            position(r) == match name_and_type_at(self.constants@, nat_index as int) {
                Some((n, d)) => find_method_from(target.methods@, n, d, 0),
                None => None,
            },
    {
        match self.get_name_and_type(nat_index) {
            Some((n, d)) => target.find_method(n, d),
            None => None,
        }
    }
}

} // verus!
