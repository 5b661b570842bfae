//! The milestones of the E balance.
use vstd::prelude::*;

verus! {

/// A balance that earns an announcement the first time a player reaches it.
pub struct Milestone {
    pub amount: i64,
    pub message: &'static str,
}

/// How many milestones there are.
pub const MILESTONE_COUNT: usize = 15;

/// The amounts of the milestones, in order.
pub open spec fn milestone_amounts() -> Seq<i64> {
    seq![1, 10, 25, 100, 250, 500, 1_000, 2_000, 5_000, 10_000, 25_000, 100_000, 250_000, 500_000, 1_000_000]
}

/// The message of the milestone at index `i`.
pub open spec fn milestone_message(i: int) -> Seq<char> {
    if i == 0 {
        "Your first E! Say more Es to earn more Es! That's an E-conomy Plugin! Use /e to find out your balance!"@
    }
    else if i == 1 {
        "10 Es! Can you continue this stellar streak? Remember, E is just a currency."@
    }
    else if i == 2 {
        "25 Es! Anyhow, make sure to mix different types of E in one message for a higher multiplier! Search E & Experiment E!"@
    }
    else if i == 3 {
        "100 Es! Are you spamming them or are they organic? Just wanted to know, because higher e-density LOWERS e-reward!!! Yeah, don't make your Es too close to each other!"@
    }
    else if i == 4 {
        "250 Es! What do you want me to say next? Oh right, don't spam too quickly!"@
    }
    else if i == 5 {
        "500 Es! Reach a specific milestone, and you'll get something special!"@
    }
    else if i == 6 {
        "1,000 Es! Congrats, but this ain't it! You must be tired by now! Hopefully now is a good time to tell you that accented and 'more weirder' Es (like Σ) give more Es! Maybe a helpful tip is better than a milestone reward?"@
    }
    else if i == 7 {
        "2,000 Es! Try greek characters and explore more E-like characters!"@
    }
    else if i == 8 {
        "5,000 Es! Your reward is...knowing a new symbol ⓔ to use! Oh right...you can't copy it..."@
    }
    else if i == 9 {
        "10,000 Es! How are you having fun?!?"@
    }
    else if i == 10 {
        "25,000 Es! You don't touch grass at all!"@
    }
    else if i == 11 {
        "100,000 Es! What even is an E anymore? This is (not) the last milestone!"@
    }
    else if i == 12 {
        "250,000 Es! This ain't it either!"@
    }
    else if i == 13 {
        "500,000 Es! Finally! You have completed the second last milestone..? Wait, so this isn't the last one..."@
    } else {
        "1,000,000 Es! The actual last one! Y? YYYYY??? Thanks for wasting your precious time on this stupid ''economy'' plugin..."@
    }
}

/// The milestone table, amount by amount: each amount comes with its own
/// message, which begins with that amount and " Es!".
pub proof fn law_milestone_table()
    ensures
        milestone_amounts().len() == MILESTONE_COUNT,
        milestone_amounts()[0] == 1 && milestone_message(0) == "Your first E! Say more Es to earn more Es! That's an E-conomy Plugin! Use /e to find out your balance!"@,
        milestone_amounts()[1] == 10 && milestone_message(1) == "10 Es! Can you continue this stellar streak? Remember, E is just a currency."@,
        milestone_amounts()[2] == 25 && milestone_message(2) == "25 Es! Anyhow, make sure to mix different types of E in one message for a higher multiplier! Search E & Experiment E!"@,
        milestone_amounts()[3] == 100 && milestone_message(3) == "100 Es! Are you spamming them or are they organic? Just wanted to know, because higher e-density LOWERS e-reward!!! Yeah, don't make your Es too close to each other!"@,
        milestone_amounts()[4] == 250 && milestone_message(4) == "250 Es! What do you want me to say next? Oh right, don't spam too quickly!"@,
        milestone_amounts()[5] == 500 && milestone_message(5) == "500 Es! Reach a specific milestone, and you'll get something special!"@,
        milestone_amounts()[6] == 1_000 && milestone_message(6) == "1,000 Es! Congrats, but this ain't it! You must be tired by now! Hopefully now is a good time to tell you that accented and 'more weirder' Es (like Σ) give more Es! Maybe a helpful tip is better than a milestone reward?"@,
        milestone_amounts()[7] == 2_000 && milestone_message(7) == "2,000 Es! Try greek characters and explore more E-like characters!"@,
        milestone_amounts()[8] == 5_000 && milestone_message(8) == "5,000 Es! Your reward is...knowing a new symbol ⓔ to use! Oh right...you can't copy it..."@,
        milestone_amounts()[9] == 10_000 && milestone_message(9) == "10,000 Es! How are you having fun?!?"@,
        milestone_amounts()[10] == 25_000 && milestone_message(10) == "25,000 Es! You don't touch grass at all!"@,
        milestone_amounts()[11] == 100_000 && milestone_message(11) == "100,000 Es! What even is an E anymore? This is (not) the last milestone!"@,
        milestone_amounts()[12] == 250_000 && milestone_message(12) == "250,000 Es! This ain't it either!"@,
        milestone_amounts()[13] == 500_000 && milestone_message(13) == "500,000 Es! Finally! You have completed the second last milestone..? Wait, so this isn't the last one..."@,
        milestone_amounts()[14] == 1_000_000 && milestone_message(14) == "1,000,000 Es! The actual last one! Y? YYYYY??? Thanks for wasting your precious time on this stupid ''economy'' plugin..."@,
{
}

/// The milestone at index `i`.
pub fn milestone(i: usize) -> (m: Milestone)
    requires
        i < MILESTONE_COUNT,
    ensures
        m.amount == milestone_amounts()[i as int],
        m.message@ == milestone_message(i as int),
{
        if i == 0 {
            Milestone { amount: 1, message: "Your first E! Say more Es to earn more Es! That's an E-conomy Plugin! Use /e to find out your balance!" }
        } else if i == 1 {
            Milestone { amount: 10, message: "10 Es! Can you continue this stellar streak? Remember, E is just a currency." }
        } else if i == 2 {
            Milestone { amount: 25, message: "25 Es! Anyhow, make sure to mix different types of E in one message for a higher multiplier! Search E & Experiment E!" }
        } else if i == 3 {
            Milestone { amount: 100, message: "100 Es! Are you spamming them or are they organic? Just wanted to know, because higher e-density LOWERS e-reward!!! Yeah, don't make your Es too close to each other!" }
        } else if i == 4 {
            Milestone { amount: 250, message: "250 Es! What do you want me to say next? Oh right, don't spam too quickly!" }
        } else if i == 5 {
            Milestone { amount: 500, message: "500 Es! Reach a specific milestone, and you'll get something special!" }
        } else if i == 6 {
            Milestone { amount: 1_000, message: "1,000 Es! Congrats, but this ain't it! You must be tired by now! Hopefully now is a good time to tell you that accented and 'more weirder' Es (like Σ) give more Es! Maybe a helpful tip is better than a milestone reward?" }
        } else if i == 7 {
            Milestone { amount: 2_000, message: "2,000 Es! Try greek characters and explore more E-like characters!" }
        } else if i == 8 {
            Milestone { amount: 5_000, message: "5,000 Es! Your reward is...knowing a new symbol ⓔ to use! Oh right...you can't copy it..." }
        } else if i == 9 {
            Milestone { amount: 10_000, message: "10,000 Es! How are you having fun?!?" }
        } else if i == 10 {
            Milestone { amount: 25_000, message: "25,000 Es! You don't touch grass at all!" }
        } else if i == 11 {
            Milestone { amount: 100_000, message: "100,000 Es! What even is an E anymore? This is (not) the last milestone!" }
        } else if i == 12 {
            Milestone { amount: 250_000, message: "250,000 Es! This ain't it either!" }
        } else if i == 13 {
            Milestone { amount: 500_000, message: "500,000 Es! Finally! You have completed the second last milestone..? Wait, so this isn't the last one..." }
        } else {
            Milestone { amount: 1_000_000, message: "1,000,000 Es! The actual last one! Y? YYYYY??? Thanks for wasting your precious time on this stupid ''economy'' plugin..." }
        }
}

} // verus!
