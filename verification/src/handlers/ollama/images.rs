//! Images in chat messages: each image becomes a part of the content of the
//! last user message.

use crate::json::{
    empty_object, items_view, json_text, jstr, lemma_items_push, lemma_items_update,
    lemma_items_view, Json, JsonV,
};
use crate::text::{concat, str_eq};
use vstd::prelude::*;

verus! {

/// The content part for an image given in base64.
pub open spec fn image_part(base64: Seq<char>) -> JsonV {
    empty_object().with("type"@, jstr("image_url"@)).with(
        "image_url"@,
        empty_object().with("url"@, jstr("data:image/jpeg;base64,"@ + base64)),
    )
}

/// The content parts for the images of a list that are texts, in order.
pub open spec fn image_parts(images: Seq<JsonV>) -> Seq<JsonV>
    decreases images.len(),
{
    if images.len() == 0 {
        Seq::empty()
    } else {
        match images.last() {
            JsonV::Str(base64) => image_parts(images.drop_last()).push(image_part(base64)),
            _ => image_parts(images.drop_last()),
        }
    }
}

/// The content part for a text.
pub open spec fn text_part(text: Seq<char>) -> JsonV {
    empty_object().with("type"@, jstr("text"@)).with("text"@, jstr(text))
}

/// The text of a message's content: the content where it is a text, else
/// its JSON text.
pub open spec fn content_text(content: JsonV) -> Seq<char> {
    match content {
        JsonV::Str(text) => text,
        _ => json_text(content),
    }
}

/// Whether a message is a user's.
pub open spec fn is_user_message(message: JsonV) -> bool {
    message.get("role"@) == Some(jstr("user"@))
}

/// The position of the last user message before `upto`.
pub open spec fn last_user_before(messages: Seq<JsonV>, upto: int) -> Option<int>
    decreases upto,
{
    if upto <= 0 {
        None
    } else if is_user_message(messages[upto - 1]) {
        Some(upto - 1)
    } else {
        last_user_before(messages, upto - 1)
    }
}

/// A message with the image parts behind the text of its content, where it
/// has a content.
pub open spec fn with_image_parts(message: JsonV, parts: Seq<JsonV>) -> JsonV {
    match message.get("content"@) {
        Some(content) => message.with(
            "content"@,
            JsonV::Array(seq![text_part(content_text(content))] + parts),
        ),
        None => message,
    }
}

/// The messages with the images put into the last user message. Nothing
/// changes where the images are no list, none of them is a text, the
/// messages are no list, or no message is a user's.
pub open spec fn messages_with_images(messages: JsonV, images: JsonV) -> JsonV {
    match (messages, images) {
        (JsonV::Array(list), JsonV::Array(given)) => {
            let parts = image_parts(given);
            match last_user_before(list, list.len() as int) {
                Some(at) => if parts.len() > 0 {
                    JsonV::Array(list.update(at, with_image_parts(list[at], parts)))
                } else {
                    messages
                },
                None => messages,
            }
        },
        _ => messages,
    }
}

/// The content parts for the images of a list that are texts.
fn image_parts_exec(images: &Vec<Json>) -> (r: Vec<Json>)
    ensures
        items_view(r@) == image_parts(items_view(images@)),
        r@.len() == image_parts(items_view(images@)).len(),
{
    let ghost views = items_view(images@);
    proof {
        lemma_items_view(images@);
    }
    let mut out: Vec<Json> = Vec::new();
    let mut i: usize = 0;
    assert(views.take(0) =~= Seq::empty());
    while i < images.len()
        invariant
            i <= images.len(),
            views == items_view(images@),
            views.len() == images@.len(),
            forall|j: int| 0 <= j < images@.len() ==> #[trigger] views[j] == images@[j]@,
            items_view(out@) == image_parts(views.take(i as int)),
            out@.len() == image_parts(views.take(i as int)).len(),
        decreases images.len() - i,
    {
        proof {
            assert(views.take(i + 1).drop_last() == views.take(i as int));
            assert(views.take(i + 1).last() == views[i as int]);
        }
        match images[i].as_str() {
            Some(base64) => {
                let mut url = Json::object();
                url.insert("url", Json::Str(concat("data:image/jpeg;base64,", base64)));
                let mut part = Json::object();
                part.insert("type", Json::string("image_url"));
                part.insert("image_url", url);
                proof {
                    lemma_items_push(out@, part);
                }
                out.push(part);
            },
            None => {},
        }
        i = i + 1;
    }
    assert(views.take(images.len() as int) == views);
    out
}

/// Whether a message is a user's.
fn is_user_message_exec(message: &Json) -> (r: bool)
    ensures
        r == is_user_message(message@),
{
    match message.get("role") {
        Some(role) => match role.as_str() {
            Some(text) => str_eq(text, "user"),
            None => false,
        },
        None => false,
    }
}

/// The position of the last user message.
fn last_user_exec(messages: &Vec<Json>) -> (r: Option<usize>)
    ensures
        match r {
            Some(at) => at < messages@.len() && last_user_before(
                items_view(messages@),
                messages@.len() as int,
            ) == Some(at as int),
            None => last_user_before(items_view(messages@), messages@.len() as int) is None,
        },
{
    let ghost views = items_view(messages@);
    proof {
        lemma_items_view(messages@);
    }
    let mut i: usize = messages.len();
    while i > 0
        invariant
            i <= messages.len(),
            views == items_view(messages@),
            views.len() == messages@.len(),
            forall|j: int| 0 <= j < messages@.len() ==> #[trigger] views[j] == messages@[j]@,
            last_user_before(views, messages@.len() as int) == last_user_before(views, i as int),
        decreases i,
    {
        if is_user_message_exec(&messages[i - 1]) {
            return Some(i - 1);
        }
        i = i - 1;
    }
    None
}

/// A message with the image parts behind the text of its content.
fn with_image_parts_exec(message: &Json, parts: &Vec<Json>) -> (r: Json)
    ensures
        r@ == with_image_parts(message@, items_view(parts@)),
{
    match message.get("content") {
        Some(content) => {
            let text = match content.as_str() {
                Some(t) => t.to_owned(),
                None => content.to_text(),
            };
            let mut first = Json::object();
            first.insert("type", Json::string("text"));
            first.insert("text", Json::Str(text));
            let mut all: Vec<Json> = Vec::new();
            all.push(first);
            proof {
                lemma_items_view(all@);
                assert(items_view(all@) =~= seq![text_part(content_text(content@))]);
            }
            let ghost head = items_view(all@);
            let ghost tail = items_view(parts@);
            let mut k: usize = 0;
            assert(tail.take(0) =~= Seq::empty());
            assert(head + tail.take(0) =~= head);
            while k < parts.len()
                invariant
                    k <= parts.len(),
                    tail == items_view(parts@),
                    items_view(all@) == head + tail.take(k as int),
                decreases parts.len() - k,
            {
                let copy = parts[k].clone();
                proof {
                    lemma_items_view(parts@);
                    lemma_items_push(all@, copy);
                    assert((head + tail.take(k as int)).push(copy@) =~= head + tail.take(k + 1));
                }
                all.push(copy);
                k = k + 1;
            }
            proof {
                lemma_items_view(parts@);
                assert(tail.take(parts.len() as int) == tail);
            }
            let mut updated = message.clone();
            updated.insert("content", Json::Array(all));
            updated
        },
        None => message.clone(),
    }
}

/// Puts the images of a request into its chat messages: into the content
/// of the last user message, as parts behind its text.
pub fn inject_images_into_messages(messages: Json, images: &Json) -> (r: Json)
    ensures
        r@ == messages_with_images(messages@, images@),
{
    let given = match images.as_array() {
        Some(items) => items,
        None => {
            return messages;
        },
    };
    let parts = image_parts_exec(given);
    match messages {
        Json::Array(list) => {
            let mut list = list;
            let ghost before = list@;
            proof {
                lemma_items_view(before);
            }
            match last_user_exec(&list) {
                Some(at) => {
                    if parts.len() > 0 {
                        let updated = with_image_parts_exec(&list[at], &parts);
                        proof {
                            lemma_items_view(before);
                            lemma_items_update(before, at as int, updated);
                            assert(items_view(before)[at as int] == before[at as int]@);
                        }
                        list.set(at, updated);
                        Json::Array(list)
                    } else {
                        Json::Array(list)
                    }
                },
                None => Json::Array(list),
            }
        },
        other => other,
    }
}

/// The chat messages that stand for a prompt with images.
pub open spec fn vision_messages(system: Option<Seq<char>>, prompt: Seq<char>, images: Option<JsonV>)
    -> JsonV {
    let user = empty_object().with("role"@, jstr("user"@)).with("content"@, jstr(prompt));
    let list = match system {
        Some(text) => seq![
            empty_object().with("role"@, jstr("system"@)).with("content"@, jstr(text)),
            user,
        ],
        None => seq![user],
    };
    match images {
        Some(given) => messages_with_images(JsonV::Array(list), given),
        None => JsonV::Array(list),
    }
}

/// The chat messages that stand for a prompt with images: the system
/// prompt where there is one, then a user message with the prompt and the
/// images as the parts of its content.
pub fn build_vision_chat_messages(
    system_prompt: Option<&str>,
    prompt: &str,
    images: Option<&Json>,
) -> (r: Json)
    ensures
        r@ == vision_messages(
            match system_prompt {
                Some(s) => Some(s@),
                None => None,
            },
            prompt@,
            match images {
                Some(i) => Some(i@),
                None => None,
            },
        ),
{
    let mut list: Vec<Json> = Vec::new();
    match system_prompt {
        Some(system_text) => {
            let mut system = Json::object();
            system.insert("role", Json::string("system"));
            system.insert("content", Json::string(system_text));
            list.push(system);
        },
        None => {},
    }
    let mut user = Json::object();
    user.insert("role", Json::string("user"));
    user.insert("content", Json::string(prompt));
    list.push(user);
    proof {
        lemma_items_view(list@);
        match system_prompt {
            Some(system_text) => {
                assert(items_view(list@) =~= seq![
                    empty_object().with("role"@, jstr("system"@)).with(
                        "content"@,
                        jstr(system_text@),
                    ),
                    empty_object().with("role"@, jstr("user"@)).with("content"@, jstr(prompt@)),
                ]);
            },
            None => {
                assert(items_view(list@) =~= seq![
                    empty_object().with("role"@, jstr("user"@)).with("content"@, jstr(prompt@)),
                ]);
            },
        }
    }
    match images {
        Some(given) => inject_images_into_messages(Json::Array(list), given),
        None => Json::Array(list),
    }
}

/// Whether a request carries images: its `images` is a list that is not
/// empty.
pub open spec fn has_images(body: JsonV) -> bool {
    match body.get("images"@) {
        Some(JsonV::Array(items)) => items.len() > 0,
        _ => false,
    }
}

/// Whether a request carries images.
pub fn has_images_exec(body: &Json) -> (r: bool)
    ensures
        r == has_images(body@),
{
    match body.get("images") {
        Some(images) => match images.as_array() {
            Some(items) => {
                proof {
                    lemma_items_view(items@);
                }
                items.len() > 0
            },
            None => false,
        },
        None => false,
    }
}

} // verus!
