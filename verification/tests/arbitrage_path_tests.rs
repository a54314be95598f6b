use debot::trade::arbitrage_trader::{find_arbitrage_paths, find_arbitrage_paths_recursive};

fn names(list: &[&str]) -> Vec<String> {
    list.iter().map(|s| s.to_string()).collect()
}

/// Brute-force reference: every sequence of steps with the documented
/// properties, in lexicographic order.
fn reference_paths(
    tokens: &[String],
    dexes: &[String],
    base: &str,
    start: &str,
    num_swaps: usize,
) -> Vec<Vec<(usize, usize)>> {
    let mut all: Vec<Vec<(usize, usize)>> = vec![vec![]];
    let mut result = Vec::new();
    for _len in 1..=num_swaps {
        let mut next = Vec::new();
        for p in &all {
            for t in 0..tokens.len() {
                for d in 0..dexes.len() {
                    let mut q = p.clone();
                    q.push((t, d));
                    next.push(q);
                }
            }
        }
        all = next;
        for q in &all {
            let allowed = (0..q.len()).all(|k| {
                let (t, d) = q[k];
                let prev = if k == 0 { base } else { tokens[q[k - 1].0].as_str() };
                (k != 0 || tokens[t] == start)
                    && tokens[t] != prev
                    && (0..k).all(|j| !(tokens[q[j].0] == tokens[t] && dexes[q[j].1] == dexes[d]))
            });
            let closes = |p: &[(usize, usize)]| {
                p.len() >= 2 && p.len() <= num_swaps && tokens[p[p.len() - 1].0] == base
            };
            let stops = |p: &[(usize, usize)]| !p.is_empty() && (closes(p) || p.len() >= num_swaps);
            let reachable = allowed && (0..q.len()).all(|j| !stops(&q[..j]));
            if reachable && closes(q) {
                result.push(q.clone());
            }
        }
    }
    result.sort();
    result
}

#[test]
fn paths_for_three_tokens_two_dexes() {
    let tokens = names(&["USDT", "WBNB", "BTCB"]);
    let dexes = names(&["PancakeSwap", "BiSwap"]);
    let base = "USDT".to_string();
    let paths = find_arbitrage_paths(&tokens, &dexes, &base, 3);
    assert_eq!(paths.len(), 24);
    assert_eq!(paths[0], vec![(1, 0), (0, 0)]);
    assert_eq!(paths[1], vec![(1, 0), (0, 1)]);
    assert_eq!(paths[2], vec![(1, 0), (2, 0), (0, 0)]);
    let mut expected = reference_paths(&tokens, &dexes, "USDT", "WBNB", 3);
    expected.extend(reference_paths(&tokens, &dexes, "USDT", "BTCB", 3));
    assert_eq!(paths, expected);
}

#[test]
fn paths_need_at_least_two_swaps() {
    let tokens = names(&["USDT", "WBNB"]);
    let dexes = names(&["PancakeSwap"]);
    let base = "USDT".to_string();
    assert!(find_arbitrage_paths(&tokens, &dexes, &base, 1).is_empty());
    assert_eq!(find_arbitrage_paths(&tokens, &dexes, &base, 2), vec![vec![(1, 0), (0, 0)]]);
}

#[test]
fn a_pair_is_not_traded_twice() {
    // With a single DEX, a path can visit each token only once.
    let tokens = names(&["USDT", "WBNB", "BTCB"]);
    let dexes = names(&["PancakeSwap"]);
    let base = "USDT".to_string();
    let paths = find_arbitrage_paths(&tokens, &dexes, &base, 5);
    let mut expected = reference_paths(&tokens, &dexes, "USDT", "WBNB", 5);
    expected.extend(reference_paths(&tokens, &dexes, "USDT", "BTCB", 5));
    assert_eq!(paths, expected);
    for p in &paths {
        let mut seen = std::collections::HashSet::new();
        for step in p {
            assert!(seen.insert(*step));
        }
    }
}

#[test]
fn recursive_search_appends_and_restores_path() {
    let tokens = names(&["USDT", "WBNB", "BTCB"]);
    let dexes = names(&["PancakeSwap", "BiSwap"]);
    let base = "USDT".to_string();
    let start = "BTCB".to_string();
    let mut paths = vec![vec![(9, 9)]];
    let mut path = Vec::new();
    find_arbitrage_paths_recursive(&tokens, &dexes, &mut paths, &base, &start, &mut path, 3);
    assert!(path.is_empty());
    assert_eq!(paths[0], vec![(9, 9)]);
    let expected = reference_paths(&tokens, &dexes, "USDT", "BTCB", 3);
    assert_eq!(paths[1..].to_vec(), expected);
}

#[test]
fn base_token_duplicates_are_skipped() {
    let tokens = names(&["USDT", "WBNB", "USDT"]);
    let dexes = names(&["PancakeSwap"]);
    let base = "USDT".to_string();
    let paths = find_arbitrage_paths(&tokens, &dexes, &base, 2);
    // Only WBNB starts a block; both USDT entries can close it.
    assert_eq!(paths, vec![vec![(1, 0), (0, 0)], vec![(1, 0), (2, 0)]]);
}
