use vstd::prelude::*;

verus! {

/// The operand stack of a frame: 32-bit slots, the last pushed on top.
pub struct OperandStack {
    vec: Vec<i32>,
}

impl View for OperandStack {
    type V = Seq<i32>;

    /// The slots from the bottom of the stack to its top.
    closed spec fn view(&self) -> Seq<i32> {
        self.vec@
    }
}

impl OperandStack {
    /// An empty stack.
    pub fn new() -> (stack: OperandStack)
        ensures
            stack@ == Seq::<i32>::empty(),
    {
        OperandStack { vec: Vec::new() }
    }

    /// Takes the top slot off the stack.
    pub fn pop(&mut self) -> (n: i32)
        requires
            old(self)@.len() > 0,
        ensures
            n == old(self)@.last(),
            final(self)@ == old(self)@.drop_last(),
    {
        self.vec.pop().unwrap()
    }

    /// Puts `n` on top of the stack.
    pub fn push(&mut self, n: i32)
        ensures
            final(self)@ == old(self)@.push(n),
    {
        self.vec.push(n);
    }

    /// Exchanges the two slots on top of the stack.
    pub fn swap(&mut self)
        requires
            old(self)@.len() >= 2,
        ensures
            final(self)@.len() == old(self)@.len(),
            final(self)@ == old(self)@.update(
                old(self)@.len() - 1,
                old(self)@[old(self)@.len() - 2],
            ).update(old(self)@.len() - 2, old(self)@[old(self)@.len() - 1]),
    {
        let len = self.vec.len();
        let top = self.vec[len - 1];
        let below = self.vec[len - 2];
        self.vec[len - 1] = below;
        self.vec[len - 2] = top;
    }
}

/// The local variables of a frame: 32-bit slots, found by their place.
///
/// Storing a value puts a new slot at the address and moves the slots from
/// there on up by one.
pub struct LocalVariables {
    vec: Vec<i32>,
}

impl View for LocalVariables {
    type V = Seq<i32>;

    /// The slots in their order.
    closed spec fn view(&self) -> Seq<i32> {
        self.vec@
    }
}

impl LocalVariables {
    /// `size` slots, each zero.
    pub fn new(size: usize) -> (vars: LocalVariables)
        ensures
            vars@ == Seq::new(size as nat, |i: int| 0i32),
    {
        let vec = vec![0i32; size];
        assert(vec@ =~= Seq::new(size as nat, |i: int| 0i32));
        LocalVariables { vec }
    }

    /// Puts `value` into a new slot at `address`.
    pub fn store(&mut self, address: u16, value: i32)
        requires
            address <= old(self)@.len(),
        ensures
            final(self)@ == old(self)@.insert(address as int, value),
    {
        self.vec.insert(address as usize, value);
    }

    /// Puts `value1` and `value2` into two new slots at `address` and behind it.
    pub fn store2(&mut self, address: u16, value1: i32, value2: i32)
        requires
            address <= old(self)@.len(),
        ensures
            final(self)@ == old(self)@.insert(address as int, value1).insert(
                address as int + 1,
                value2,
            ),
    {
        self.vec.insert(address as usize, value1);
        self.vec.insert(address as usize + 1, value2);
    }

    /// The value in the slot at `address`.
    pub fn load(&self, address: u16) -> (value: i32)
        requires
            address < self@.len(),
        ensures
            value == self@[address as int],
    {
        self.vec[address as usize]
    }

    /// The values in the slot at `address` and in the one behind it.
    pub fn load2(&self, address: u16) -> (values: (i32, i32))
        requires
            address + 1 < self@.len(),
        ensures
            values == (self@[address as int], self@[address as int + 1]),
    {
        (self.vec[address as usize], self.vec[address as usize + 1])
    }
}

} // verus!
