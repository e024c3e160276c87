//! A small model of the enum dispatch that the adapters use: a closed set of
//! implementations behind one enum, built by a factory from a plain tag.

use vstd::prelude::*;
use vstd::string::*;

verus! {

/// Something that can make its sound heard.
pub trait Animal {
    /// The sound of this animal, as a sequence of characters.
    spec fn sound(&self) -> Seq<char>;

    /// Returns the sound for the caller to print.
    fn speak(&self) -> (heard: String)
        ensures
            heard@ == self.sound(),
    ;
}

#[derive(Clone, Copy, Debug, PartialEq, Eq, Structural)]
pub struct Dog;

#[derive(Clone, Copy, Debug, PartialEq, Eq, Structural)]
pub struct Cat;

/// The tag from which the factory builds an animal.
#[derive(Clone, Copy, Debug, PartialEq, Eq, Structural)]
pub enum AnimalType {
    Dog,
    Cat,
}

/// Every animal the factory can build.
#[derive(Clone, Copy, Debug, PartialEq, Eq, Structural)]
pub enum AnimalEnum {
    DogType(Dog),
    CatType(Cat),
}

impl Animal for Dog {
    open spec fn sound(&self) -> Seq<char> {
        "Woof!"@
    }

    fn speak(&self) -> (heard: String) {
        "Woof!".to_string()
    }
}

impl Animal for Cat {
    open spec fn sound(&self) -> Seq<char> {
        "Meow!"@
    }

    fn speak(&self) -> (heard: String) {
        "Meow!".to_string()
    }
}

impl Animal for AnimalEnum {
    open spec fn sound(&self) -> Seq<char> {
        match self {
            AnimalEnum::DogType(dog) => dog.sound(),
            AnimalEnum::CatType(cat) => cat.sound(),
        }
    }

    fn speak(&self) -> (heard: String) {
        match self {
            AnimalEnum::DogType(dog) => dog.speak(),
            AnimalEnum::CatType(cat) => cat.speak(),
        }
    }
}

pub struct AnimalFactory;

impl AnimalFactory {
    /// Builds the animal that `animal_type` names.
    pub fn create_animal(animal_type: AnimalType) -> (animal: AnimalEnum)
        ensures
            animal == (match animal_type {
                AnimalType::Dog => AnimalEnum::DogType(Dog),
                AnimalType::Cat => AnimalEnum::CatType(Cat),
            }),
    {
        match animal_type {
            AnimalType::Dog => AnimalEnum::DogType(Dog),
            AnimalType::Cat => AnimalEnum::CatType(Cat),
        }
    }
}

} // verus!
