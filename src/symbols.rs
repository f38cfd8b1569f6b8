use vstd::prelude::*;

use crate::class_file::{class_name_at, ConstantType};

verus! {

/// Whether some method-reference constant names the class constant at `index`.
pub open spec fn is_referenced_class(consts: Seq<ConstantType>, index: int) -> bool {
    exists|i: int|
        0 <= i < consts.len() && #[trigger] method_ref_class(consts[i]) == Some(index)
}

/// The class index of a method-reference constant.
pub open spec fn method_ref_class(c: ConstantType) -> Option<int> {
    match c {
        ConstantType::MethodRef { class_index, .. } => Some(class_index as int),
        _ => None,
    }
}

/// What a class's symbol table maps the class index `index` to: the class name, for a
/// class index that a method reference uses and whose chain of constants is intact.
pub open spec fn symbol_of(consts: Seq<ConstantType>, index: int) -> Option<Seq<char>> {
    if is_referenced_class(consts, index) {
        class_name_at(consts, index)
    } else {
        None
    }
}

/// One resolved class reference.
#[derive(Debug)]
pub struct SymbolEntry {
    pub class_index: u16,
    pub name: String,
}

/// Per-class mapping from class-reference indices to class names.
#[derive(Debug)]
pub struct SymbolTable {
    pub entries: Vec<SymbolEntry>,
}

impl SymbolTable {
    /// The table holds exactly the resolvable class references of `consts`.
    pub open spec fn valid_for(&self, consts: Seq<ConstantType>) -> bool {
        &&& forall|j: int|
            #![trigger self.entries@[j]]
            0 <= j < self.entries@.len() ==> symbol_of(consts, self.entries@[j].class_index as int)
                == Some(self.entries@[j].name@)
        &&& forall|k: int|
            #![trigger symbol_of(consts, k)]
            symbol_of(consts, k) is Some ==> exists|j: int|
                0 <= j < self.entries@.len() && #[trigger] self.entries@[j].class_index == k
    }

    /// The class name recorded for `class_index`.
    pub fn lookup(&self, class_index: u16, consts: Ghost<Seq<ConstantType>>) -> (r: Option<&String>)
        requires
            self.valid_for(consts@),
        ensures
            match r {
                Some(n) => symbol_of(consts@, class_index as int) == Some(n@),
                None => symbol_of(consts@, class_index as int) is None,
            },
    {
        let mut j: usize = 0;
        while j < self.entries.len()
            invariant
                j <= self.entries@.len(),
                self.valid_for(consts@),
                forall|p: int| 0 <= p < j ==> self.entries@[p].class_index != class_index,
            decreases self.entries@.len() - j,
        {
            if self.entries[j].class_index == class_index {
                assert(self.entries@[j as int].class_index == class_index);
                return Some(&self.entries[j].name);
            }
            j = j + 1;
        }
        None
    }
}

} // verus!
