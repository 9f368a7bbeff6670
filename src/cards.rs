use vstd::prelude::*;
use vstd::string::*;

verus! {

/// The colour of a joker.
#[derive(Clone, Copy, Debug, PartialEq, Eq, Structural)]
pub enum Color {
    Red,
    Black,
}

/// The rank of a suited card, from two up to ace.
#[derive(Clone, Copy, Debug, PartialEq, Eq, Structural, PartialOrd, Ord)]
pub enum Rank {
    Two,
    Three,
    Four,
    Five,
    Six,
    Seven,
    Eight,
    Nine,
    Ten,
    Jack,
    Queen,
    King,
    Ace,
}

/// What a card shows: a suit with a rank, or a joker with a colour.
#[derive(Clone, Copy, Debug, PartialEq, Eq, Structural)]
pub enum CardType {
    Hearts(Rank),
    Diamonds(Rank),
    Clubs(Rank),
    Spades(Rank),
    Joker(Color),
}

impl Color {
    /// The colour's name.
    pub open spec fn label(self) -> Seq<char> {
        match self {
            Color::Red => "red"@,
            Color::Black => "black"@,
        }
    }

    /// The colour's name.
    pub fn as_str(&self) -> (r: &'static str)
        ensures
            r@ == self.label(),
    {
        match self {
            Color::Red => "red",
            Color::Black => "black",
        }
    }
}

impl Rank {
    /// The rank as printed on the card.
    pub open spec fn label(self) -> Seq<char> {
        match self {
            Rank::Two => "2"@,
            Rank::Three => "3"@,
            Rank::Four => "4"@,
            Rank::Five => "5"@,
            Rank::Six => "6"@,
            Rank::Seven => "7"@,
            Rank::Eight => "8"@,
            Rank::Nine => "9"@,
            Rank::Ten => "10"@,
            Rank::Jack => "J"@,
            Rank::Queen => "Q"@,
            Rank::King => "K"@,
            Rank::Ace => "A"@,
        }
    }

    /// The rank as printed on the card.
    pub fn as_str(&self) -> (r: &'static str)
        ensures
            r@ == self.label(),
    {
        match self {
            Rank::Two => "2",
            Rank::Three => "3",
            Rank::Four => "4",
            Rank::Five => "5",
            Rank::Six => "6",
            Rank::Seven => "7",
            Rank::Eight => "8",
            Rank::Nine => "9",
            Rank::Ten => "10",
            Rank::Jack => "J",
            Rank::Queen => "Q",
            Rank::King => "K",
            Rank::Ace => "A",
        }
    }
}

impl CardType {
    /// The style class of the card: `card-<rank>-<suit>`, or
    /// `card-<colour>-joker`.
    pub open spec fn class_name(self) -> Seq<char> {
        match self {
            CardType::Hearts(r) => "card-"@ + r.label() + "-hearts"@,
            CardType::Diamonds(r) => "card-"@ + r.label() + "-diamonds"@,
            CardType::Clubs(r) => "card-"@ + r.label() + "-clubs"@,
            CardType::Spades(r) => "card-"@ + r.label() + "-spades"@,
            CardType::Joker(c) => "card-"@ + c.label() + "-joker"@,
        }
    }

    /// The style class of the card.
    pub fn to_string(&self) -> (r: String)
        ensures
            r@ == self.class_name(),
    {
        let prefix = String::from_str("card-");
        match self {
            CardType::Hearts(r) => prefix.concat(r.as_str()).concat("-hearts"),
            CardType::Diamonds(r) => prefix.concat(r.as_str()).concat("-diamonds"),
            CardType::Clubs(r) => prefix.concat(r.as_str()).concat("-clubs"),
            CardType::Spades(r) => prefix.concat(r.as_str()).concat("-spades"),
            CardType::Joker(c) => prefix.concat(c.as_str()).concat("-joker"),
        }
    }
}

} // verus!
