//! Output text with numbers that are still to be printed.
use crate::structs::Real;
use vstd::prelude::*;

verus! {

/// One piece of output: text that is final, or a number that the caller prints.
#[derive(Debug)]
pub enum Piece {
    Text(String),
    Number(Real),
}

/// What a piece says: its characters, or its number.
pub enum Token {
    Text(Seq<char>),
    Number(Real),
}

impl View for Piece {
    type V = Token;

    open spec fn view(&self) -> Token {
        match self {
            Piece::Text(s) => Token::Text(s@),
            Piece::Number(x) => Token::Number(*x),
        }
    }
}

impl Clone for Piece {
    fn clone(&self) -> (r: Piece)
        ensures
            r@ == self@,
    {
        match self {
            Piece::Text(s) => Piece::Text(s.clone()),
            Piece::Number(x) => Piece::Number(*x),
        }
    }
}

/// A run of pieces. Printing it means printing each piece in turn.
#[derive(Debug)]
pub struct Fragment {
    pub pieces: Vec<Piece>,
}

impl View for Fragment {
    type V = Seq<Token>;

    open spec fn view(&self) -> Seq<Token> {
        self.pieces@.map_values(|p: Piece| p@)
    }
}

impl Fragment {
    /// The empty fragment.
    pub fn new() -> (r: Fragment)
        ensures
            r@ == Seq::<Token>::empty(),
    {
        let r = Fragment { pieces: Vec::new() };
        assert(r@ =~= Seq::<Token>::empty());
        r
    }

    /// Adds one piece at the end.
    pub fn push(&mut self, piece: Piece)
        ensures
            final(self)@ == old(self)@.push(piece@),
    {
        self.pieces.push(piece);
        assert(self@ =~= old(self)@.push(piece@));
    }

    /// Adds text at the end.
    pub fn text(&mut self, s: &str)
        ensures
            final(self)@ == old(self)@.push(Token::Text(s@)),
    {
        self.push(Piece::Text(String::from_str(s)));
    }

    /// Adds a number at the end.
    pub fn number(&mut self, x: Real)
        ensures
            final(self)@ == old(self)@.push(Token::Number(x)),
    {
        self.push(Piece::Number(x));
    }

    /// Adds all of `other` at the end.
    pub fn append(&mut self, other: &Fragment)
        ensures
            final(self)@ == old(self)@ + other@,
    {
        let n = other.pieces.len();
        let mut i: usize = 0;
        while i < n
            invariant
                n == other.pieces.len(),
                i <= n,
                self@ == old(self)@ + other@.subrange(0, i as int),
            decreases n - i,
        {
            let piece = other.pieces[i].clone();
            self.push(piece);
            assert(other@.subrange(0, i + 1) =~= other@.subrange(0, i as int).push(other@[i as int]));
            i += 1;
        }
        assert(other@.subrange(0, n as int) =~= other@);
    }
}

impl Clone for Fragment {
    fn clone(&self) -> (r: Fragment)
        ensures
            r@ == self@,
    {
        let mut r = Fragment::new();
        r.append(self);
        assert(r@ =~= self@);
        r
    }
}

} // verus!
