use torqle::adapters::example::{Animal, AnimalEnum, AnimalFactory, AnimalType, Cat, Dog};

#[test]
fn factory_builds_the_named_animal() {
    assert_eq!(AnimalFactory::create_animal(AnimalType::Dog), AnimalEnum::DogType(Dog));
    assert_eq!(AnimalFactory::create_animal(AnimalType::Cat), AnimalEnum::CatType(Cat));
}

#[test]
fn animals_speak() {
    assert_eq!(AnimalFactory::create_animal(AnimalType::Dog).speak(), "Woof!");
    assert_eq!(AnimalFactory::create_animal(AnimalType::Cat).speak(), "Meow!");
}
