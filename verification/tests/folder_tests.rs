use file_hashing::HashError;
use file_hashing::HashState;
use file_hashing::ProgressInfo;
use file_hashing::get_hash_folder;

use rand::Rng;

fn random_bytes(n: usize) -> Vec<u8> {
    let mut rng = rand::thread_rng();
    let mut buf = vec![0u8; n];
    rng.fill(&mut buf[..]);
    buf
}

fn random_folder(value_files: usize, size: usize) -> Vec<Result<Vec<u8>, HashError>> {
    let mut folder = Vec::with_capacity(value_files);
    for _ in 0..value_files {
        folder.push(Ok(random_bytes(size)));
    }
    folder
}

#[test]
fn folder_get_hash_folder() {
    let mut hash = HashState::new();
    let folder = random_folder(325, 32);

    let (result, _events) = get_hash_folder(&folder, &mut hash);
    let result = result.unwrap();

    println!("result: {}", result);
    assert_eq!(result.len(), 64); // Blake2s256 len == 64
}

#[test]
fn get_hash_folders() {
    let mut hash = HashState::new();
    let folder1 = random_folder(325, 32);
    let folder2 = random_folder(325, 32);

    let (result, _events) = file_hashing::get_hash_folders(vec![folder1, folder2], &mut hash);
    let result = result.unwrap();

    println!("result: {}", result);
    assert_eq!(result.len(), 64); // Blake2s256 len == 64
}

#[test]
fn folder_two_files_progress_and_digest() {
    // A folder holding exactly the files {a.txt, b.txt}.
    let a = b"alpha".to_vec();
    let b = b"bravo".to_vec();

    let mut hash = HashState::new();
    let (result, events) = get_hash_folder(&vec![Ok(a.clone()), Ok(b.clone())], &mut hash);
    let digest_ab = result.unwrap();
    assert_eq!(
        events,
        vec![ProgressInfo::Yield(1), ProgressInfo::Yield(2)]
    );
    assert_eq!(digest_ab.len(), 64);

    // The digest depends on both files' contents.
    let changed_b = b"BRAVO".to_vec();
    let mut hash2 = HashState::new();
    let (result2, _) = get_hash_folder(&vec![Ok(a.clone()), Ok(changed_b)], &mut hash2);
    assert_ne!(digest_ab, result2.unwrap());

    let changed_a = b"ALPHA".to_vec();
    let mut hash3 = HashState::new();
    let (result3, _) = get_hash_folder(&vec![Ok(changed_a), Ok(b.clone())], &mut hash3);
    assert_ne!(digest_ab, result3.unwrap());

    // Deleting both files leaves an empty folder: InvalidInput.
    let mut hash4 = HashState::new();
    let (result4, events4) = get_hash_folder(&Vec::new(), &mut hash4);
    assert_eq!(result4, Err(HashError::InvalidInput));
    assert!(events4.is_empty());
}

#[test]
fn folders_concatenate_in_order() {
    let a = b"first".to_vec();
    let b = b"second".to_vec();
    let c = b"third".to_vec();

    // Two folders, concatenated in folder order...
    let mut hash1 = HashState::new();
    let (split, _) = file_hashing::get_hash_folders(
        vec![vec![Ok(a.clone()), Ok(b.clone())], vec![Ok(c.clone())]],
        &mut hash1,
    );
    let split = split.unwrap();

    // ...behave exactly like one folder holding the combined list.
    let mut hash2 = HashState::new();
    let (combined, _) = get_hash_folder(
        &vec![Ok(a.clone()), Ok(b.clone()), Ok(c.clone())],
        &mut hash2,
    );
    assert_eq!(split, combined.unwrap());

    // A different folder order gives a different aggregate.
    let mut hash3 = HashState::new();
    let (reordered, _) = file_hashing::get_hash_folders(
        vec![vec![Ok(c)], vec![Ok(a), Ok(b)]],
        &mut hash3,
    );
    assert_ne!(split, reordered.unwrap());
}
