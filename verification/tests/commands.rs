use foxbot::asset::{FactRecord, ImageAsset};
use foxbot::cache::{Data, SelectionCache};
use foxbot::commands::{command_error_reply, create_fact_embed, create_fox_embed, fact, fact_reply,
    fox, fox_reply};
use foxbot::config::Config;
use foxbot::dataset::{Dataset, EmptyDatasetError};
use foxbot::embed::{create_basic_embed, create_embed, create_error_embed, create_info_embed,
    create_success_embed, create_warning_embed, Colour, Embed};

const MAIN: Colour = Colour { r: 222, g: 165, b: 132 };
const ERROR: Colour = Colour { r: 237, g: 66, b: 69 };

fn data(images: Vec<ImageAsset>, facts: Vec<FactRecord>) -> Data {
    Data {
        config: Config::default(),
        cache: SelectionCache::from_datasets(Dataset::from_vec(images), Dataset::from_vec(facts)),
    }
}

fn text(part: &Option<String>) -> Option<&str> {
    part.as_deref()
}

#[test]
fn the_basic_embed_has_only_the_main_colour() {
    let embed = create_basic_embed();
    assert_eq!(embed.colour, Some(MAIN));
    assert_eq!(embed.title, None);
    assert_eq!(embed.description, None);
    assert_eq!(embed.footer, None);
    assert_eq!(embed.image, None);
}

fn check(embed: Embed, colour: Colour) {
    assert_eq!(text(&embed.title), Some("Title"));
    assert_eq!(text(&embed.description), Some("What happened"));
    assert_eq!(embed.colour, Some(colour));
    assert_eq!(embed.footer, None);
    assert_eq!(embed.image, None);
}

#[test]
fn each_kind_of_embed_has_its_colour() {
    check(create_embed("Title", "What happened"), MAIN);
    check(create_info_embed("Title", "What happened"), MAIN);
    check(create_success_embed("Title", "What happened"), Colour { r: 87, g: 242, b: 135 });
    check(create_error_embed("Title", "What happened"), ERROR);
    check(create_warning_embed("Title", "What happened"), Colour { r: 255, g: 221, b: 51 });
    check(Embed::with_text("Title", "What happened", Colour { r: 1, g: 2, b: 3 }),
        Colour { r: 1, g: 2, b: 3 });
}

#[test]
fn the_fox_embed_names_photographer_and_id() {
    let embed = create_fox_embed("Jane Doe", "042", "jane-doe-x-042.jpg");
    assert_eq!(text(&embed.title), Some("Random Fox"));
    assert_eq!(text(&embed.description), Some("Here's a beautiful fox for you!"));
    assert_eq!(embed.colour, Some(MAIN));
    assert_eq!(
        text(&embed.footer),
        Some(format!("Photo by {} \u{e2}\u{20ac}\u{a2} ID: {}", "Jane Doe", "042").as_str())
    );
    assert_eq!(text(&embed.image), Some("attachment://jane-doe-x-042.jpg"));
}

#[test]
fn the_fact_embed_tells_the_fact_and_its_number() {
    let embed = create_fact_embed("Foxes purr.", 7);
    assert_eq!(text(&embed.title), Some("Fox Fact"));
    assert_eq!(text(&embed.description), Some("Foxes purr."));
    assert_eq!(embed.colour, Some(MAIN));
    assert_eq!(text(&embed.footer), Some("Fact #7"));
    assert_eq!(embed.image, None);
    assert_eq!(text(&create_fact_embed("", 0).footer), Some("Fact #0"));
    assert_eq!(text(&create_fact_embed("", 120).footer), Some("Fact #120"));
    assert_eq!(text(&create_fact_embed("", u32::MAX).footer), Some("Fact #4294967295"));
}

#[test]
fn a_fox_is_shown_with_its_file() {
    let image = ImageAsset::new("jane-doe-red-fox-042.jpg".to_string(), vec![1, 2, 3]);
    let reply = fox_reply(Ok(&image));
    assert!(!reply.ephemeral);
    let attachment = reply.attachment.unwrap();
    assert_eq!(attachment.file_name, "jane-doe-red-fox-042.jpg");
    assert_eq!(attachment.data, &[1, 2, 3]);
    assert_eq!(text(&reply.embed.title), Some("Random Fox"));
    assert_eq!(
        text(&reply.embed.footer),
        Some("Photo by Jane Doe Red Fox \u{e2}\u{20ac}\u{a2} ID: 042")
    );
    assert_eq!(text(&reply.embed.image), Some("attachment://jane-doe-red-fox-042.jpg"));
}

#[test]
fn no_fox_is_told_to_the_asker_alone() {
    let reply = fox_reply(Err(EmptyDatasetError));
    assert!(reply.ephemeral);
    assert!(reply.attachment.is_none());
    assert_eq!(text(&reply.embed.title), Some("Error"));
    assert_eq!(text(&reply.embed.description), Some("No fox images found in the directory!"));
    assert_eq!(reply.embed.colour, Some(ERROR));
}

#[test]
fn a_fact_is_told() {
    let record = FactRecord { id: 31, fact: "Foxes have whiskers on their legs.".to_string() };
    let reply = fact_reply(Ok(&record));
    assert!(!reply.ephemeral);
    assert!(reply.attachment.is_none());
    assert_eq!(text(&reply.embed.title), Some("Fox Fact"));
    assert_eq!(text(&reply.embed.description), Some("Foxes have whiskers on their legs."));
    assert_eq!(text(&reply.embed.footer), Some("Fact #31"));
}

#[test]
fn no_fact_is_told_as_an_error() {
    let reply = fact_reply(Err(EmptyDatasetError));
    assert!(!reply.ephemeral);
    assert!(reply.attachment.is_none());
    assert_eq!(text(&reply.embed.title), Some("Error"));
    assert_eq!(text(&reply.embed.description), Some("No fox facts available!"));
    assert_eq!(reply.embed.colour, Some(ERROR));
}

#[test]
fn the_fox_command_shows_an_image_of_the_cache() {
    let images = vec![
        ImageAsset::new("a-b-1.jpg".to_string(), vec![1]),
        ImageAsset::new("c-d-2.jpg".to_string(), vec![2]),
    ];
    let data = data(images, Vec::new());
    let mut seen = [false; 2];
    for _ in 0..500 {
        let reply = fox(&data);
        let attachment = reply.attachment.unwrap();
        if attachment.file_name == "a-b-1.jpg" {
            assert_eq!(attachment.data, &[1]);
            assert_eq!(text(&reply.embed.footer), Some("Photo by A B \u{e2}\u{20ac}\u{a2} ID: 1"));
            seen[0] = true;
        } else {
            assert_eq!(attachment.file_name, "c-d-2.jpg");
            assert_eq!(attachment.data, &[2]);
            assert_eq!(text(&reply.embed.footer), Some("Photo by C D \u{e2}\u{20ac}\u{a2} ID: 2"));
            seen[1] = true;
        }
    }
    assert_eq!(seen, [true, true]);
}

#[test]
fn the_fox_command_says_when_there_is_no_image() {
    let data = data(Vec::new(), vec![FactRecord { id: 1, fact: "x".to_string() }]);
    let reply = fox(&data);
    assert!(reply.ephemeral);
    assert_eq!(text(&reply.embed.description), Some("No fox images found in the directory!"));
}

#[test]
fn the_fact_command_tells_a_fact_of_the_cache() {
    let data = data(Vec::new(), vec![FactRecord { id: 7, fact: "seven".to_string() }]);
    for _ in 0..20 {
        let reply = fact(&data);
        assert_eq!(text(&reply.embed.description), Some("seven"));
        assert_eq!(text(&reply.embed.footer), Some("Fact #7"));
    }
}

#[test]
fn the_fact_command_says_when_there_is_no_fact() {
    let data = data(vec![ImageAsset::new("a.jpg".to_string(), Vec::new())], Vec::new());
    let reply = fact(&data);
    assert_eq!(text(&reply.embed.description), Some("No fox facts available!"));
}

#[test]
fn a_failed_command_shows_its_error() {
    let reply = command_error_reply("out of foxes");
    assert!(reply.ephemeral);
    assert!(reply.attachment.is_none());
    assert_eq!(text(&reply.embed.title), Some("Command Error"));
    assert_eq!(text(&reply.embed.description), Some("Error: out of foxes"));
    assert_eq!(reply.embed.colour, Some(ERROR));
}
