use vstd::prelude::*;

verus! {

/// The closed label taxonomy of the detector: the COCO object categories.
///
/// Category ids run from 1 to 90 with gaps; slot 0 is the model's
/// no-object slot and maps to no label.
#[derive(Debug, Clone, Copy, PartialEq, Eq, Structural)]
pub enum CocoClass {
    Person,
    Bicycle,
    Car,
    Motorcycle,
    Airplane,
    Bus,
    Train,
    Truck,
    Boat,
    TrafficLight,
    FireHydrant,
    StopSign,
    ParkingMeter,
    Bench,
    Bird,
    Cat,
    Dog,
    Horse,
    Sheep,
    Cow,
    Elephant,
    Bear,
    Zebra,
    Giraffe,
    Backpack,
    Umbrella,
    Handbag,
    Tie,
    Suitcase,
    Frisbee,
    Skis,
    Snowboard,
    SportsBall,
    Kite,
    BaseballBat,
    BaseballGlove,
    Skateboard,
    Surfboard,
    TennisRacket,
    Bottle,
    WineGlass,
    Cup,
    Fork,
    Knife,
    Spoon,
    Bowl,
    Banana,
    Apple,
    Sandwich,
    Orange,
    Broccoli,
    Carrot,
    HotDog,
    Pizza,
    Donut,
    Cake,
    Chair,
    Couch,
    PottedPlant,
    Bed,
    DiningTable,
    Toilet,
    Tv,
    Laptop,
    Mouse,
    Remote,
    Keyboard,
    CellPhone,
    Microwave,
    Oven,
    Toaster,
    Sink,
    Refrigerator,
    Book,
    Clock,
    Vase,
    Scissors,
    TeddyBear,
    HairDrier,
    Toothbrush,
}

/// The label that a category id names, if any.
pub open spec fn class_for_id(id: usize) -> Option<CocoClass> {
    match id {
        1 => Some(CocoClass::Person),
        2 => Some(CocoClass::Bicycle),
        3 => Some(CocoClass::Car),
        4 => Some(CocoClass::Motorcycle),
        5 => Some(CocoClass::Airplane),
        6 => Some(CocoClass::Bus),
        7 => Some(CocoClass::Train),
        8 => Some(CocoClass::Truck),
        9 => Some(CocoClass::Boat),
        10 => Some(CocoClass::TrafficLight),
        11 => Some(CocoClass::FireHydrant),
        13 => Some(CocoClass::StopSign),
        14 => Some(CocoClass::ParkingMeter),
        15 => Some(CocoClass::Bench),
        16 => Some(CocoClass::Bird),
        17 => Some(CocoClass::Cat),
        18 => Some(CocoClass::Dog),
        19 => Some(CocoClass::Horse),
        20 => Some(CocoClass::Sheep),
        21 => Some(CocoClass::Cow),
        22 => Some(CocoClass::Elephant),
        23 => Some(CocoClass::Bear),
        24 => Some(CocoClass::Zebra),
        25 => Some(CocoClass::Giraffe),
        27 => Some(CocoClass::Backpack),
        28 => Some(CocoClass::Umbrella),
        31 => Some(CocoClass::Handbag),
        32 => Some(CocoClass::Tie),
        33 => Some(CocoClass::Suitcase),
        34 => Some(CocoClass::Frisbee),
        35 => Some(CocoClass::Skis),
        36 => Some(CocoClass::Snowboard),
        37 => Some(CocoClass::SportsBall),
        38 => Some(CocoClass::Kite),
        39 => Some(CocoClass::BaseballBat),
        40 => Some(CocoClass::BaseballGlove),
        41 => Some(CocoClass::Skateboard),
        42 => Some(CocoClass::Surfboard),
        43 => Some(CocoClass::TennisRacket),
        44 => Some(CocoClass::Bottle),
        46 => Some(CocoClass::WineGlass),
        47 => Some(CocoClass::Cup),
        48 => Some(CocoClass::Fork),
        49 => Some(CocoClass::Knife),
        50 => Some(CocoClass::Spoon),
        51 => Some(CocoClass::Bowl),
        52 => Some(CocoClass::Banana),
        53 => Some(CocoClass::Apple),
        54 => Some(CocoClass::Sandwich),
        55 => Some(CocoClass::Orange),
        56 => Some(CocoClass::Broccoli),
        57 => Some(CocoClass::Carrot),
        58 => Some(CocoClass::HotDog),
        59 => Some(CocoClass::Pizza),
        60 => Some(CocoClass::Donut),
        61 => Some(CocoClass::Cake),
        62 => Some(CocoClass::Chair),
        63 => Some(CocoClass::Couch),
        64 => Some(CocoClass::PottedPlant),
        65 => Some(CocoClass::Bed),
        67 => Some(CocoClass::DiningTable),
        70 => Some(CocoClass::Toilet),
        72 => Some(CocoClass::Tv),
        73 => Some(CocoClass::Laptop),
        74 => Some(CocoClass::Mouse),
        75 => Some(CocoClass::Remote),
        76 => Some(CocoClass::Keyboard),
        77 => Some(CocoClass::CellPhone),
        78 => Some(CocoClass::Microwave),
        79 => Some(CocoClass::Oven),
        80 => Some(CocoClass::Toaster),
        81 => Some(CocoClass::Sink),
        82 => Some(CocoClass::Refrigerator),
        84 => Some(CocoClass::Book),
        85 => Some(CocoClass::Clock),
        86 => Some(CocoClass::Vase),
        87 => Some(CocoClass::Scissors),
        88 => Some(CocoClass::TeddyBear),
        89 => Some(CocoClass::HairDrier),
        90 => Some(CocoClass::Toothbrush),
        _ => None,
    }
}

/// The human-readable name of each label.
pub open spec fn class_name(c: CocoClass) -> Seq<char> {
    match c {
        CocoClass::Person => "person"@,
        CocoClass::Bicycle => "bicycle"@,
        CocoClass::Car => "car"@,
        CocoClass::Motorcycle => "motorcycle"@,
        CocoClass::Airplane => "airplane"@,
        CocoClass::Bus => "bus"@,
        CocoClass::Train => "train"@,
        CocoClass::Truck => "truck"@,
        CocoClass::Boat => "boat"@,
        CocoClass::TrafficLight => "traffic light"@,
        CocoClass::FireHydrant => "fire hydrant"@,
        CocoClass::StopSign => "stop sign"@,
        CocoClass::ParkingMeter => "parking meter"@,
        CocoClass::Bench => "bench"@,
        CocoClass::Bird => "bird"@,
        CocoClass::Cat => "cat"@,
        CocoClass::Dog => "dog"@,
        CocoClass::Horse => "horse"@,
        CocoClass::Sheep => "sheep"@,
        CocoClass::Cow => "cow"@,
        CocoClass::Elephant => "elephant"@,
        CocoClass::Bear => "bear"@,
        CocoClass::Zebra => "zebra"@,
        CocoClass::Giraffe => "giraffe"@,
        CocoClass::Backpack => "backpack"@,
        CocoClass::Umbrella => "umbrella"@,
        CocoClass::Handbag => "handbag"@,
        CocoClass::Tie => "tie"@,
        CocoClass::Suitcase => "suitcase"@,
        CocoClass::Frisbee => "frisbee"@,
        CocoClass::Skis => "skis"@,
        CocoClass::Snowboard => "snowboard"@,
        CocoClass::SportsBall => "sports ball"@,
        CocoClass::Kite => "kite"@,
        CocoClass::BaseballBat => "baseball bat"@,
        CocoClass::BaseballGlove => "baseball glove"@,
        CocoClass::Skateboard => "skateboard"@,
        CocoClass::Surfboard => "surfboard"@,
        CocoClass::TennisRacket => "tennis racket"@,
        CocoClass::Bottle => "bottle"@,
        CocoClass::WineGlass => "wine glass"@,
        CocoClass::Cup => "cup"@,
        CocoClass::Fork => "fork"@,
        CocoClass::Knife => "knife"@,
        CocoClass::Spoon => "spoon"@,
        CocoClass::Bowl => "bowl"@,
        CocoClass::Banana => "banana"@,
        CocoClass::Apple => "apple"@,
        CocoClass::Sandwich => "sandwich"@,
        CocoClass::Orange => "orange"@,
        CocoClass::Broccoli => "broccoli"@,
        CocoClass::Carrot => "carrot"@,
        CocoClass::HotDog => "hot dog"@,
        CocoClass::Pizza => "pizza"@,
        CocoClass::Donut => "donut"@,
        CocoClass::Cake => "cake"@,
        CocoClass::Chair => "chair"@,
        CocoClass::Couch => "couch"@,
        CocoClass::PottedPlant => "potted plant"@,
        CocoClass::Bed => "bed"@,
        CocoClass::DiningTable => "dining table"@,
        CocoClass::Toilet => "toilet"@,
        CocoClass::Tv => "tv"@,
        CocoClass::Laptop => "laptop"@,
        CocoClass::Mouse => "mouse"@,
        CocoClass::Remote => "remote"@,
        CocoClass::Keyboard => "keyboard"@,
        CocoClass::CellPhone => "cell phone"@,
        CocoClass::Microwave => "microwave"@,
        CocoClass::Oven => "oven"@,
        CocoClass::Toaster => "toaster"@,
        CocoClass::Sink => "sink"@,
        CocoClass::Refrigerator => "refrigerator"@,
        CocoClass::Book => "book"@,
        CocoClass::Clock => "clock"@,
        CocoClass::Vase => "vase"@,
        CocoClass::Scissors => "scissors"@,
        CocoClass::TeddyBear => "teddy bear"@,
        CocoClass::HairDrier => "hair drier"@,
        CocoClass::Toothbrush => "toothbrush"@,
    }
}

impl CocoClass {
    /// Looks a category id up; ids outside the taxonomy, the no-object
    /// slot among them, give `None`.
    pub fn from_id(id: usize) -> (r: Option<CocoClass>)
        ensures
            r == class_for_id(id),
    {
        match id {
            1 => Some(CocoClass::Person),
            2 => Some(CocoClass::Bicycle),
            3 => Some(CocoClass::Car),
            4 => Some(CocoClass::Motorcycle),
            5 => Some(CocoClass::Airplane),
            6 => Some(CocoClass::Bus),
            7 => Some(CocoClass::Train),
            8 => Some(CocoClass::Truck),
            9 => Some(CocoClass::Boat),
            10 => Some(CocoClass::TrafficLight),
            11 => Some(CocoClass::FireHydrant),
            13 => Some(CocoClass::StopSign),
            14 => Some(CocoClass::ParkingMeter),
            15 => Some(CocoClass::Bench),
            16 => Some(CocoClass::Bird),
            17 => Some(CocoClass::Cat),
            18 => Some(CocoClass::Dog),
            19 => Some(CocoClass::Horse),
            20 => Some(CocoClass::Sheep),
            21 => Some(CocoClass::Cow),
            22 => Some(CocoClass::Elephant),
            23 => Some(CocoClass::Bear),
            24 => Some(CocoClass::Zebra),
            25 => Some(CocoClass::Giraffe),
            27 => Some(CocoClass::Backpack),
            28 => Some(CocoClass::Umbrella),
            31 => Some(CocoClass::Handbag),
            32 => Some(CocoClass::Tie),
            33 => Some(CocoClass::Suitcase),
            34 => Some(CocoClass::Frisbee),
            35 => Some(CocoClass::Skis),
            36 => Some(CocoClass::Snowboard),
            37 => Some(CocoClass::SportsBall),
            38 => Some(CocoClass::Kite),
            39 => Some(CocoClass::BaseballBat),
            40 => Some(CocoClass::BaseballGlove),
            41 => Some(CocoClass::Skateboard),
            42 => Some(CocoClass::Surfboard),
            43 => Some(CocoClass::TennisRacket),
            44 => Some(CocoClass::Bottle),
            46 => Some(CocoClass::WineGlass),
            47 => Some(CocoClass::Cup),
            48 => Some(CocoClass::Fork),
            49 => Some(CocoClass::Knife),
            50 => Some(CocoClass::Spoon),
            51 => Some(CocoClass::Bowl),
            52 => Some(CocoClass::Banana),
            53 => Some(CocoClass::Apple),
            54 => Some(CocoClass::Sandwich),
            55 => Some(CocoClass::Orange),
            56 => Some(CocoClass::Broccoli),
            57 => Some(CocoClass::Carrot),
            58 => Some(CocoClass::HotDog),
            59 => Some(CocoClass::Pizza),
            60 => Some(CocoClass::Donut),
            61 => Some(CocoClass::Cake),
            62 => Some(CocoClass::Chair),
            63 => Some(CocoClass::Couch),
            64 => Some(CocoClass::PottedPlant),
            65 => Some(CocoClass::Bed),
            67 => Some(CocoClass::DiningTable),
            70 => Some(CocoClass::Toilet),
            72 => Some(CocoClass::Tv),
            73 => Some(CocoClass::Laptop),
            74 => Some(CocoClass::Mouse),
            75 => Some(CocoClass::Remote),
            76 => Some(CocoClass::Keyboard),
            77 => Some(CocoClass::CellPhone),
            78 => Some(CocoClass::Microwave),
            79 => Some(CocoClass::Oven),
            80 => Some(CocoClass::Toaster),
            81 => Some(CocoClass::Sink),
            82 => Some(CocoClass::Refrigerator),
            84 => Some(CocoClass::Book),
            85 => Some(CocoClass::Clock),
            86 => Some(CocoClass::Vase),
            87 => Some(CocoClass::Scissors),
            88 => Some(CocoClass::TeddyBear),
            89 => Some(CocoClass::HairDrier),
            90 => Some(CocoClass::Toothbrush),
            _ => None,
        }
    }

    /// The human-readable name of the label.
    pub fn name(&self) -> (r: &'static str)
        ensures
            r@ == class_name(*self),
    {
        match self {
            CocoClass::Person => "person",
            CocoClass::Bicycle => "bicycle",
            CocoClass::Car => "car",
            CocoClass::Motorcycle => "motorcycle",
            CocoClass::Airplane => "airplane",
            CocoClass::Bus => "bus",
            CocoClass::Train => "train",
            CocoClass::Truck => "truck",
            CocoClass::Boat => "boat",
            CocoClass::TrafficLight => "traffic light",
            CocoClass::FireHydrant => "fire hydrant",
            CocoClass::StopSign => "stop sign",
            CocoClass::ParkingMeter => "parking meter",
            CocoClass::Bench => "bench",
            CocoClass::Bird => "bird",
            CocoClass::Cat => "cat",
            CocoClass::Dog => "dog",
            CocoClass::Horse => "horse",
            CocoClass::Sheep => "sheep",
            CocoClass::Cow => "cow",
            CocoClass::Elephant => "elephant",
            CocoClass::Bear => "bear",
            CocoClass::Zebra => "zebra",
            CocoClass::Giraffe => "giraffe",
            CocoClass::Backpack => "backpack",
            CocoClass::Umbrella => "umbrella",
            CocoClass::Handbag => "handbag",
            CocoClass::Tie => "tie",
            CocoClass::Suitcase => "suitcase",
            CocoClass::Frisbee => "frisbee",
            CocoClass::Skis => "skis",
            CocoClass::Snowboard => "snowboard",
            CocoClass::SportsBall => "sports ball",
            CocoClass::Kite => "kite",
            CocoClass::BaseballBat => "baseball bat",
            CocoClass::BaseballGlove => "baseball glove",
            CocoClass::Skateboard => "skateboard",
            CocoClass::Surfboard => "surfboard",
            CocoClass::TennisRacket => "tennis racket",
            CocoClass::Bottle => "bottle",
            CocoClass::WineGlass => "wine glass",
            CocoClass::Cup => "cup",
            CocoClass::Fork => "fork",
            CocoClass::Knife => "knife",
            CocoClass::Spoon => "spoon",
            CocoClass::Bowl => "bowl",
            CocoClass::Banana => "banana",
            CocoClass::Apple => "apple",
            CocoClass::Sandwich => "sandwich",
            CocoClass::Orange => "orange",
            CocoClass::Broccoli => "broccoli",
            CocoClass::Carrot => "carrot",
            CocoClass::HotDog => "hot dog",
            CocoClass::Pizza => "pizza",
            CocoClass::Donut => "donut",
            CocoClass::Cake => "cake",
            CocoClass::Chair => "chair",
            CocoClass::Couch => "couch",
            CocoClass::PottedPlant => "potted plant",
            CocoClass::Bed => "bed",
            CocoClass::DiningTable => "dining table",
            CocoClass::Toilet => "toilet",
            CocoClass::Tv => "tv",
            CocoClass::Laptop => "laptop",
            CocoClass::Mouse => "mouse",
            CocoClass::Remote => "remote",
            CocoClass::Keyboard => "keyboard",
            CocoClass::CellPhone => "cell phone",
            CocoClass::Microwave => "microwave",
            CocoClass::Oven => "oven",
            CocoClass::Toaster => "toaster",
            CocoClass::Sink => "sink",
            CocoClass::Refrigerator => "refrigerator",
            CocoClass::Book => "book",
            CocoClass::Clock => "clock",
            CocoClass::Vase => "vase",
            CocoClass::Scissors => "scissors",
            CocoClass::TeddyBear => "teddy bear",
            CocoClass::HairDrier => "hair drier",
            CocoClass::Toothbrush => "toothbrush",
        }
    }
}

} // verus!
