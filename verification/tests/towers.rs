use yafa::errors::Error;
use yafa::fields::cubic::CubicExt;
use yafa::fields::field::Field;
use yafa::fields::power::pow;
use yafa::fields::prime::Fp;
use yafa::fields::quadratic::QuadExt;
use yafa::modular::Modulus;
use yafa::yafa_108::curves::Yafa as Yafa108;
use yafa::yafa_146::curves::Yafa as Yafa146;

fn limbs(hex: &str, n: usize) -> Vec<u64> {
    let digits: Vec<u8> = hex.bytes().rev().collect();
    let mut out = vec![0u64; n];
    for (i, d) in digits.iter().enumerate() {
        let v = (*d as char).to_digit(16).unwrap() as u64;
        out[i / 16] |= v << (4 * (i % 16));
    }
    out
}

fn fp(hex: &str, m: &Modulus) -> Fp {
    Fp::from_limbs(&limbs(hex, m.limbs.len()), m)
}

fn hex(bytes: &[u8]) -> String {
    let mut s = String::new();
    for b in bytes {
        s.push_str(&format!("{:02x}", b));
    }
    s
}

fn join(parts: &[&str]) -> String {
    let mut s = String::new();
    for p in parts {
        s.push_str(p);
    }
    s
}

type Fq2 = QuadExt<Fp>;
type Fq3 = CubicExt<Fp>;
type Fq6a = QuadExt<CubicExt<Fp>>;
type Fq6b = CubicExt<QuadExt<Fp>>;
type Fq12 = QuadExt<CubicExt<QuadExt<Fp>>>;

fn fq2(c: &[&str], fq: &Modulus) -> Fq2 {
    QuadExt::new(fp(c[0], fq), fp(c[1], fq))
}

fn fq3(c: &[&str], fq: &Modulus) -> Fq3 {
    CubicExt::new(fp(c[0], fq), fp(c[1], fq), fp(c[2], fq))
}

fn fq6a(c: &[&str], fq: &Modulus) -> Fq6a {
    QuadExt::new(fq3(&c[0..3], fq), fq3(&c[3..6], fq))
}

fn fq6b(c: &[&str], fq: &Modulus) -> Fq6b {
    CubicExt::new(fq2(&c[0..2], fq), fq2(&c[2..4], fq), fq2(&c[4..6], fq))
}

fn fq12(c: &[&str], fq: &Modulus) -> Fq12 {
    QuadExt::new(fq6b(&c[0..6], fq), fq6b(&c[6..12], fq))
}

/// The laws that every field of the towers is held to, on three of its elements.
fn check_field_laws<F: Field>(a: &F, b: &F, c: &F, p: &F::Params) {
    // associativity
    assert!(a.add(b, p).add(c, p).same(&a.add(&b.add(c, p), p), p));
    assert!(a.mul(b, p).mul(c, p).same(&a.mul(&b.mul(c, p), p), p));
    // distributivity
    assert!(a.mul(&b.add(c, p), p).same(&a.mul(b, p).add(&a.mul(c, p), p), p));
    // commutativity
    assert!(a.mul(b, p).same(&b.mul(a, p), p));
    // neutral elements and negatives
    assert!(a.add(&F::zero(p), p).same(a, p));
    assert!(a.mul(&F::one(p), p).same(a, p));
    assert!(a.add(&a.neg(p), p).is_zero(p));
    assert!(a.sub(b, p).same(&a.add(&b.neg(p), p), p));
    assert!(a.square(p).same(&a.mul(a, p), p));
    assert!(a.double(p).same(&a.add(a, p), p));
    // the inverse
    let inv = a.inverse(p).unwrap();
    assert!(a.mul(&inv, p).same(&F::one(p), p));
    assert!(F::zero(p).inverse(p).is_none());
    assert!(!a.same(b, p));
    assert!(a.dup(p).same(a, p));
}

/// Encoding, decoding and encoding again.
fn check_round_trip<F: Field>(a: &F, p: &F::Params) {
    let mut bytes = Vec::new();
    a.write(&mut bytes, p);
    assert_eq!(bytes.len(), F::encoded_len(p));
    let back = F::read(&bytes, p).unwrap();
    assert!(back.same(a, p));
    let mut again = Vec::new();
    back.write(&mut again, p);
    assert_eq!(again, bytes);
    // one byte less, one byte more
    assert!(matches!(F::read(&bytes[1..].to_vec(), p), Err(Error::DeserializationRangeError)));
    bytes.push(0);
    assert!(matches!(F::read(&bytes, p), Err(Error::DeserializationRangeError)));
}

/// The Frobenius map of power one, applied as often as the field has degree,
/// is the identity; and it is the power by the size of the prime field.
fn check_frobenius<F: Field>(a: &F, degree: usize, q: &Vec<u64>, p: &F::Params) {
    let mut x = a.dup(p);
    for _ in 0..degree {
        x = x.frobenius_map(1, p);
    }
    assert!(x.same(a, p));
    assert!(a.frobenius_map(1, p).same(&pow(a, q, p), p));
    assert!(a.frobenius_map(2, p).same(&a.frobenius_map(1, p).frobenius_map(1, p), p));
    assert!(a.frobenius_map(degree, p).same(a, p));
    assert!(a.frobenius_map(degree + 1, p).same(&a.frobenius_map(1, p), p));
}

#[test]
fn quadratic_extension_of_yafa_146_obeys_the_field_laws() {
    let yafa = Yafa146::new();
    let f2 = &yafa.engine.fq12.base.base;
    let fq = &f2.base;
    let (a, b, c) = (fq2(&["17d0537dde2e26d080710195c1da8dc82bbbfbe5714906caf31c014c0fed1c997fbcb46ddf1dd239fcf308025e88d6aad3648537a53113e72122be461d6f06b473e259e9158c1752", "1eb90894d1a91390db1e925db7d59d1ac1d953b02534769afd0f4eec94555eed40189b66fe61b3fd7e8ab30ebe38656c649137e5a35f96e5eb0fdf23ca4d1f3a1debe414cc395d63"], fq), fq2(&["1c95124c86d2600fa6d513a5f7f981fc52e299f73a0123e9f3fcc7e27c0446ee11c4dd2ef318c2da013a973de3a77091b483a91de47b6ab3b428cc905e941cd0e181b8497730563", "8b6dea6026eb4139d112598fa3f9b76cb0dfe13dd6802b36591b646b5b52298b2790462f6ba256be1a846269f2a18dcb1357a11ca4b565e0d12f2e81947b2ee5b5dd0d293ca327f"], fq), fq2(&["fc7f26ba8d537f1b0b87fb5f3238c58421c1fe16a6da19384066c01ad90916db3acbce3c611d9872865f2021bf6c87857dfe63f0cf4af2c88a03a8ddaf683da4334f49e58c5e410", "2c8b3ecc9ff11e5a92348a75b53362cf334be179e1d433e47b59392a308e2d41c65c06c588b0fb0b2b32ff93938a2d8eb774e1ed1428338381e0a0d1a722af6de5c0efb6ccd1237"], fq));
    check_field_laws(&a, &b, &c, f2);
    check_round_trip(&a, f2);
    check_frobenius(&a, 2, &fq.limbs, f2);
    // the product and the inverse, coefficient by coefficient
    assert!(a.mul(&b, f2).same(&fq2(&["a196d2952b517d688dd6b3b05c8f15f69c2b579980ab98e288293fa572520f16cf64e3b37aca524d12f01930e8d98618bc8abb283b90f7cdb9ae501c4160bdab77d5d4a52479786", "ce2a7b68ee8306b085ecff08ca7d02430814ddb712a9917d6e7c4a7fb77076604f8b4541663676596ab69d208c02bc56126a4285807567676249a057fa9e861127c47a600047735"], fq), f2));
    assert!(a.inverse(f2).unwrap().same(&fq2(&["129957cbb090b8709c7131c2d6a55f5755b0bf6233256bba6203d5c7e5af7b48d9bd61507dfe14d1f6d5c3badc1d3ac39c5fc27be189c282007dd2c4486792542dd429c17323a223", "1bf7f1e12c2e904f3baf6dc25601be2f19edab9c0a82a2e94ea60e722334f6e1403110f8a57e7ad73ef8bea43ec97b7521da0a102eff69d8c6b2c4a902ea5a62235168a3dbec5ee6"], fq), f2));
    assert!(a.conjugate(f2).same(&fq2(&["17d0537dde2e26d080710195c1da8dc82bbbfbe5714906caf31c014c0fed1c997fbcb46ddf1dd239fcf308025e88d6aad3648537a53113e72122be461d6f06b473e259e9158c1752", "546f808f8472474117fa4782570350cefa8922aeae02760704a8c010f88bc9dc4edabc2b5ec8d09a71d70398798ce04b0047c91df0c1457f45ae64817e8321dea299d3e2b3a9386"], fq), f2));
    assert!(a.scale(&fp("3", fq), f2).same(&a.add(&a, f2).add(&a, f2), f2));
    // u^2 = 17
    let u = fq2(&["0", "1"], fq);
    assert!(u.square(f2).same(&fq2(&["11", "0"], fq), f2));
}

#[test]
fn cubic_extension_of_yafa_146_obeys_the_field_laws() {
    let yafa = Yafa146::new();
    let f6 = &yafa.engine.fq12.base;
    let fq = &f6.base.base;
    let (a, b, c) = (fq6b(&["ec64148663da6dde5d6983e1482001f9a957b238480726dc4946945e3cceaabb8ba8a5281333980cb80d543b1e31f1f5af628e0f911ab1439d912c66b96ec1aedc88ff2eb80e691", "320ff6437a71efa413914c0ea25cec804eee8f94c26d0bcd2bd4fd7257698a5c89b325c5a043bb8d46b8dbc5f28916db72654b4bbd8a7c71fa20e92c514b55458bdc66811909e9a", "ee72dbdc2cc0108e6ab0ca5d96477cbcfb0505dd000cf84b65002234baeb1a1e38e7b3a1422bcbb19802a9b2c40b1a2eb353d67ec63ac3d9be0249ea5f4ea115c95ebaa754067b3", "10b64bcff1ddd899ccf44c26a5ef9d279c790d24ca601379f1aa7d1ebcbd12f36e58af919a097fd5c6d37bd5190f42a4cbe66ae03647fd2b8d8649eeb487045e17001e05931f94fe", "1a5d041057ccb15f8ad49aaac2e1a7fdb19813a75beb93b04c262dfc2999b8ec2dcdbbb5f607328c456da7cc5672a01f8bc732794da2c926721db683a417f02fb19a2a1d395f54af", "fca2408b0189fcc37012794d80786af4aaa9724c19b705e92a260c3852ebbabb02825e80e4ba963ca2028954b56b1573591f239bd01514ab7325fefdcfa26ede02b885114b8d9b3"], fq), fq6b(&["130cd86dc154b9311df0d2323452f142eb2c34d480ba54c167ca062351adad657d048fac2859a24e16fec2e0685e535a2b490b6072044d0b114aac78441dad8b79b5e10c50b4964b", "3d6d3681ad4d2436a2c45d16213c6985994c439ef0d47c73c42cdb51b149ee88927ee508fcd4306a58823c2936120e4801d0a12d3a2a84c2a8fccd721448332fce370fd9d702ce", "1fbbd93611cd11e0a95bc5535c78d107f2ac5bba1dce825aff5d6818a70560f449814ee68fa032c345b49590525339b5b727a974e9d4b9a0a53156c0990f9f7fb549ae465b008b06", "1cb6c2c3f483a756cc2478a57c2f762252ff7f6334e8cd6c8bdc31d70f90d23bb400092a8215be2db3a839105eed96a7d8a7ae8b49625c3c23741b40b913cb501a16d30aaac29121", "1b4574dc0dc50d62c52637b2ff434dab22a040661f8a52fadd8711ddf0e71b34a9885fd5297e9ef4a200edb6eaf958996788af848297d85a2cbba5abd32225664ae1ed01d77f3540", "19101e1dffc2890f8d4b48d6f1e92b562c9fcb7b831cf94fb6d63357f6a4529f275b3947622930a1f7529a9e6bf014a9a4139d0c92cc66a3bb6983335b3f4d3a9c08cb3e8095e05"], fq), fq6b(&["bffcfdc617fbfcb9f9159fcf31e099862cb94c5bc0fdc2a310efb9f45761f09f369555cd4e18ac668db1ec7c609f5148c6fafeeef8017a3bdebaf3751200926f04afb9cb8157ea1", "1bc4aa4d38a0e12cbd348654d841341b7d52e85525a3040d52245537f4ed84a438b1ee32685269ca7442c726b16546c99e534340ab08786253c6717a24e28e4a2d1b1886b0e17693", "8f8cc0ffc86e0a674ed7056fb12f25f64b2f1c18e5f595ddc4d0a755b77fd34ceb0dea74524d5b508c8c62defc1f997fef73bb8b78e052bcc8df56ee981c9fbb6066de2281d38ad", "23dfd29c5698bac81ca724e7f167ecf829030c13fb7a2621913bde5688c1b0dc0f8ca53aa066708f7bee14d6a2cbf6cbc71f09cd6638537cf47d300edb0dfffa9d975245de2e2d67", "1c55098c5e17cb667c7b85a62aed362fd3c563376303bfdafbc63a661c936d9afd109cea221c18b6f1bd81583659808dc66594c468bf0fbbcb5d3316f0df62f57bdc2d02cae038a", "2320f30557b1f2e2de17661bf8d1f94f0b9344520d22cae17e9a1e7414933bbebfaf8f358022d963c4f921ec5e886606fd2d58b846195bebebff8bf4b63327b16aee0da06463b41c"], fq));
    check_field_laws(&a, &b, &c, f6);
    check_round_trip(&a, f6);
    check_frobenius(&a, 6, &fq.limbs, f6);
    assert!(a.mul(&b, f6).same(&fq6b(&["74b7711446e79f9f99cf758fe5fd0672598e178f4134d4caeafb0ee3c071713fdc9300cb5bb95f817bcfebd5f181f6c83af6106f29aed070d8936cb4019726b7e9bb68571208918", "21fb36d07a63d6486a1f4155371ef9588c0e0a732ccb7ce32469fa86be9f826d247ebd803424c0986c4864433df4aaedb217511b2fa20f1cfb92184a817f234f2e4bfed6be146364", "72a83e8067a7a73fb76e8f74a2e3d86270b338c0f6aed9776699eaabf7f51734a5628af7ddbd0a449aef2bac6ef64ec384f4242a91b25b5bead497faeee3116b30759804f4fd1e7", "311aec1616772ff0611b9e252d8b73e79f8fda4a11e4a9e2fedeb6cabdd1af330b08134bcce96c42a9499b7ea8405459b3e37ec3ce7be667be94976f1571bafb767618c0a275631", "8fac41fa5ffe3d775a81313ba8a1d6ebc059d18f73e2330a0b0bff3efed0c9d412562c5f902471441c3bd6b8730ae3334462da0a447811cd28edab482fe3dc36f273ce3250950ff", "ec4060e1d4e8bba4db2d2335cecd5a7259c98c348c88816a675ddfcb3a451fe6d0b31137bb9038da6a98b3c30f1f845a4b4b87da782e434f8226fd4e63500d481581fd835f98a42"], fq), f6));
    assert!(a.inverse(f6).unwrap().same(&fq6b(&["9460880ab776c14440a7b1f97fab2bcbfd22f5f4ec97d1181071bfc6877ff3874cf3859203f037f11c211055b1a90c632498c68d0764055bb56e9b623fa2e8232cb69cc5ae65b0c", "78d11baff835a1340e4a801865bb59dd46462e1735a49ce8f53c0ba3b7880d696cae95f0c7bd53049735a65553fb6b69048d6ad7d40a47ac8aeaaba75a74128c6aee8d3612d181d", "c41f4af9abc275ec5c55ac5b43ee8805858e8079c65692e055502f100475d02eebe67fc81806dc6d8cf2a8d350ef0e0fd4d28722fb06048bf23b3437a93d17062c20438751c9b04", "1ed59d01444783dae8e011ebf132d6220c3140a4498aaa2f0ebb80e5bfa34df226d760586c89e9398d723710b9ebe11d552ec243baab800845d9cd61654dca021376897b3a13f8fc", "ac5053cd23cfb5a7d1d893fb6bafdb7e91fc46c6ca30ea4cfd7f04e04623abe8339d33f73e718ff4b21610539bbd0d3cd32fb887a22e20b94ee603f00a8f46f91edcf2e85c1ef31", "28e46e5f7b824c4889a868b2d1b034390e62ca0bc8123a9532ea4f50b6d22788f17f42b19f30c6ad4ea23d63d92c4015cb3ed70a7559eca782b9ff0710335d7fdda0869a39c030"], fq), f6));
    // v^3 = 7u
    let v = fq6b(&["0", "0", "1", "0", "0", "0"], fq);
    assert!(v.square(f6).mul(&v, f6).same(&fq6b(&["0", "7", "0", "0", "0", "0"], fq), f6));
}

#[test]
fn target_field_of_yafa_146_obeys_the_field_laws() {
    let yafa = Yafa146::new();
    let f12 = &yafa.engine.fq12;
    let fq = &f12.base.base.base;
    let (a, b, c) = (fq12(&["17311739c8e800e1dd0498646c745fcf6dd904ce5acd137f4ace9d58b134ea8b580fdaecf23c4ed7a91ed180dfd5f8b93183d8a914e6faccf4f382aa62d58942164cc6428eed3892", "230e3fcc3a6827dbffa40a0a4e648eb4bc7104fe05ef0cfe2a357058b513899ea8d0f7e4f4bb2211788da5c00b435ccf8f0c4717523ba90a9d1c26e012fd110e8c8054b5f28bc33c", "19b1bf37a48425f04b564da421d6ecf1bfad1f1c09bd75f43b2d07baac60d1c0d35e84ed59bbd9f9d8e762c281bd9f737db409fe0c5ed57d128ed8caf3e4e6148a87f6e94fd6e49d", "1b16c8a694cb5d11a39894481a36a8a7f4e1f4fbaa0f933af7ab5379fa12c1de894112ce73459d49330bd81d050dd0c56e102563e3eef4a5a549557ddd8eb2297ede86b9d2a3ee6c", "f12764f12dcba31e88f484d8b5e687e17be721444b04a4e463551e108489088d25eb152278f47206efde21f5ad99b9f376688a219354f9c903bcba6967acb431e0c8bd4dc2d30a2", "1fc6f7e79c8e57c1191b23880b40ff723e0000bfc55cc72e7b95d7610c3521b789e934e18a3feb2e71c526edb784d58df589f94afda2d274fd26d1eff270f5e709775f9989201686", "1f537e70a0b4425bc54ce3f8cc7270b3f0c047e4f7fbff57bf9d4d6da0d2e497053589f9a68659889ea2bd8b3a22a663230c7b06a9d8d8bf918469f9a109a3179b0f171d2f1cef21", "182101182513590d8003638b519325822d510b47cc3bceff477c3ccf4419cccaffdd6470980f26b3d19f47305d382c5e87a3f97cd556e6c26309c4681f646ca2ebe9a68dcf1c1b12", "1c0b6357c85ffe87d486214b50ae14c70f9b670b650e8462cd1588eedbe0c6edfe4d5896833ebc33cbd6e6154c5b9cefe5ae6d3f02ee69c81eb3897263a193984e31718c1b544888", "2271ab0b175399a93613b122eb482223cde260f5c7f9dc12f90a776dd10a1d799d9775721d269e2cd12d1384ab009bcb6d6d51b2241ea4a1461099d23f6f3be8aa23d371abe99adb", "105847fcc80f777f38af9b6a9903b6b0ab4edfb9af3230e460fca3bb2978d023e7568691afc17bad1e93b8778b2634d85377a484a89e816831a83d71782dc5fc775ad6897ee27afb", "1c7cc7f92a915dc91dbe249a2c56662c3fe0fb48469a3583ed9bb96e848bb027922d4d991ad3fa0b91e211ef0ac942accdbfd3461417eca345997649c1ed441d56f9daf52c6a202"], fq), fq12(&["2191da8bff49357cdff93d5cd7063d1ad739b9e3a4562e23909e84b62127d2098e9f3f51bf33e2daf41ffb55edfb554d4baabecff77c34422038366b3984f1ce4a6ef56e3bd7bbcd", "11398e2a4f13106aa7c4dc872245255de520d04d24059731eca847e49ef6b8c8e651537a78f74dc6124d9e2b0165b24df03c23012e908f218c106fc5e12f714b9c7201063e6a5b72", "131f4ca57a1415373bc7074cdad5996ae2b0bad089b7cb8891b1bed67bcab9f5f839d88d2942279ef05eb7d7b95c00f6d2038dec03e1f64ffc25f0ef43954b682ab77d2b11c93c54", "1381127e576dd402e24fefed87ad2115c1fcddef4a0a76f0016ea77dacfcc733408bacdb4a00b943c05080c396c3b2a5d8f629b819991f110b4ad11b83bf778ae78b86bbfc29277", "1d3ab77d2e3e99c4eb59e5e204dab91f68905eb32a43feaf0d444b92a51bdf3075547a62d3f192e5ae88849707b7ea1f2ba3bfa8a56fa747cf23b74786ad65f9892e3119942c450b", "14e17036649b25e9a47c3598954e5eb757813521a5335ebb9d55e2ffde93e9fd4631a0d6ea40918d8407d44194912d165f39c82c0f827ec68e3101632085bff01705d351f968075f", "14ed1bf8b2020a7b143dff3a8f7f0e149204abb60ebca2acc2533060a20ac8465a34c51125f1504cfd8e6fcf8ba13c1d6f4c11b9c32936462688b98b705ed49f1eb88ab2f824bc1b", "d461b5b9ef03e9d89371572cdab875f4a9b6e16b04bd7f06ea474430a1d180af667fd811e94fc70d7903e4bd14ed232c741b250f5251f43c32fb55892d615a2f8832e442139fe9d", "5827bcad648768e8c7bb6f529378c6de2026f7189c5aac9f4451fab9d230aeb72a52ff1366f86f8029fae99f4e8be8641f2680ff60d9dc710ce1ab64d11910179d791ffa24f92e3", "21ef0957e36dddf1d27c92a0a5290a89059f081590d7e2ce70997853876605372de8b3d3aa883806460a86246c8acc9dbecad15929b00bdd33906d69bb0a02920bc8cb91d81f4cbc", "10ab5863ea3f51c013674dac07ca870791586c0a44ca183e464bb3fb2e34a7bc969cfeeda77de27bcb1309e1cd65ecc9e3525502640d7af835b215b3fd1a7f5697fd5b28988e45f1", "9c620b7b23b0b7e3a62278f7319555d86f62c04ad4f031eb695d87aa0c1bfef2aadb0b0757556d1f64360d0616da21f2deb251d3e0be85b8800b6a3ebc013d2f3c0f36100cddb8b"], fq), fq12(&["dd41f9ef87edf8097b97d29eaa687927f2fca34d07491662756fb442dc52b40875b92eadafa43b3eff7e8b8843a55751f3ca0b09d6eb20f2e8a25d2bb0a4a588d552db43b07fd78", "ef3e81e84b0c152fdd8df3dd6d0db4e1f9f025b5a3f9138515a68eaf00fdf645f318089c2ea8c8ac15b66a6b8a269d440a6c7a6a456558999e395ecbe00583189eaeb8ff3e48820", "20ec10b9cb1a26f9c63706f5077ee3996ef9cee5951f7269b045ea0a31c583d0c53ac20d51d6d86e4d0afd916d5bfe3ee83edc709b92a3d206fb89ee273b8096bee30f51b6cc1018", "1b90dc4c45175b8f14c4de79b4e96e7cc6bd9c8caa9f1c71a80f08b3ba69ed4f6ad269029e7c49a2dfad56ad7e2dec52423597cf5b78e9f5df6ac69fe036305a8ed325b6a0119b97", "86d6e287c1e23a4baabc60ef0d581beec3e224802aaf88007059c62cb406c99ad667f5568c6cc0b6f0c9bcc4a6fcae24d5f9f44711c2125041a846df9fa12653fb88d2a72050e0c", "207199170e18517ab92bd0812434e33ddb733a3d2cf5c4eae4bc9dda5acb31fce91121253dfebe78258bc9c59d03b52ab3d72f8bc28f8056106741671f526008b81837ef4cac7a4a", "19429382426783cad4d7edbf1ef817ff69ab85913ed8b5d2cf09182a2b5113d16409654c35e456b9cdbb59a4d32cd7a150ff3be3a714cbf00fe1f28342b31924ff7d87053378658b", "1ac03c4a0140dff78b03d560a558c3507148e296902aae3ea17072fd42d33c885dba16a978b8c0ea8f937a476929aa3c842f53f9fadb863e2292e726cf3cd05617557baba8b4b54a", "16616655ea1ffcdb620ae26da512336af3986e32a11067ee9882c6935838eae8dcd6d5e8c4480f03c824303fa959884a2610a589173ecd98ba0b061b4a7336b0c6321ec5d925f3be", "16d07473fb66a32164008f1ad4b4aa36bd2c7b97315df6550558b761c1a93e5b2261f61c6c00f1695e850d3ccbd371eeccc8e008f98579dcb9fc6e90db483096eccf75baea6ba380", "1b9a52d16f4c9acf21a70e9d5d9b717d05dc2428115f3dc090386924f21053b38544635773187fa25cb14d40a087dbd82cd960459408773a10c4c0f039bfa8feb9194d3dbc9e74e2", "16cfe1f9c9a9339474560fee41b149855cc5b64a285416cfeef484c6d00f71ac07514783624941514a5e7281b07701bbdc65ad6d6f68cf3b967ba201c7e82605ef87b48d3a8fae2d"], fq));
    check_field_laws(&a, &b, &c, f12);
    check_round_trip(&a, f12);
    assert!(a.mul(&b, f12).same(&fq12(&["75ecdb0f9e5bb4d6ded0bb23a869f43a12f0784a53e1bc9b94a9f48f6d18928dd5d9c3f610d0d91cdb366222978bb7655b3eb9a29f9b1b288964a6f7b277f96be6b7d4ffcb5276", "c2b27e4fc5cc902b93a14f9cefa292aeab1d4f653a2f898641dc17280ee71dc0c5ba9c3fffaba8a41eb056ec3a8fdc431070e1047018c84c0c5a8ab03f601a43f103e313ca2b562", "1285359d3131e85602cda7ef1c8c64a59ec24e692ede4f428e1e652aba3d9fd551b3cd796cd8f6963a9afafe47673504494fd9eef98a6f73e2a541be3e18cc608256aae53f7ca36a", "156b3a98fe7abb11951da7d270ae596ce9d6163fcb1d2997160ca502dd306379f3dec9f4c0ce52b089b2e2b6295fc9d4a24793b485ba837a11c789e99a4cdf4eb1bd1ab6d98899e4", "d12809a89d15f3889871d175be26ae7043d1156cbc3711e970b2864f4ce467104df02d549226bc42bf188ce0ebeae8b422f6316d46a14a690756d5faab50dcdf59f67dd92f5405a", "692631fa5807785862ec4a4da346c3f2f589af4369ff5c9f846c4d3e181684087ca14a16ca22cd0c6db5f9706f3041acb92b2aeddb3bcdb68c69688b7635861d6e9e1cf47895037", "8e6ddff076cc64a8407cf5227a10f7a46b5d9dacc03e4b18bb6dab3ef7a5e15be5702ca18044ac01efabf5d71b2d7db54fbb46591fd61616b61525c18f15a991dd4c2fce828e38e", "7d63a612a5f5682f835bcd135fcf79a1693fcdc5cad374efefa9f273549550897099ebf72e98d0494d16ea19131ad4abfc30173a5d9a78c99e61bed5a59e137cd046e3eeaaa0988", "24f9cdf19d236de5e108d158e7638816f7e68b34660597b501b47bebaaa146499018f6ae3c3b49e25b0c22d83dce2860b050c3dd58f58bf794e58253ab8e0646f47246d6eb22309", "21f781b2405e2af7904b5a2b8f41285438b528b3244208bbeadae4d737bdc8a69ba780ae7f4901f5a350972b1c0c3ff4205495da1ef1b6658a37c8bfdd4ec57c2084bc29fff7c408", "1391ceccd089e719bd067432eee7d34bf270561e9e54889ddcc59733f62d0119f62f3ebde8228219c51392e9574933dec440e7160197f8241da510076f27038a174a71b827c54334", "ce415ef26bebb7cfcbfb6418fe9683ee000d7831791e4dc58301c8f0dee68c0c80374115a92173f17c4711496df00e81dbcdc884ff9ec559ab4a94f2543c2326891ff379c232718"], fq), f12));
    assert!(a.inverse(f12).unwrap().same(&fq12(&["4b2af1dac3156cadff0f502996514abb50443ef5959cc59cfb4a202ed2ee76c8c02f72210a3fd23cd44248546192b26c9345aef1ee462d24f21dc52e8f2536e5247a0e0739baada", "14e6fea5eb35abf985d554bc2b438d196b7c3b64a07c231577d79722218e9df415e6bf5e1f68b6d91f3284f5acbc5704fa324517a8d3695b6f5e74003fde5102f73dea8b57993739", "191327d7508016bc8884b8b94bc8c13fa3054169bb44f4cb958ef23ccc7efb65dd979858b1cce693619bcdd33813d0222644041d349614b8dbbebc8280b7c4f9edc2eb92010e014a", "20318a20b9f2d7ee892159bb6546c17ca1b2ffccfc0a41f209b03a5130b8dd416f8892e0b3e648cbdf2e3e584e3ecffa61df0b419137d748ebe87978bf0a14935e5537f5e1566b31", "13028c43beec48048b0180e5833a205b6e9d54ecacad5c797e4a2d3450b675d775f26bd967bb4407881eaa2451ebf6ffa79a4ab03fa5fee0dedf1e9013889daf3c675785ea14612c", "e888f9684ea54a9ff755746b8315bb73acd2884ef66d4710279168c44c1e4c14c93d028bbd9956ae5784ab4c808c2f4a5b52a78636d4570638118fdb5920ff97337aaf8f635552e", "17a20b037e246390cf42bd29110ca26050c4ca89501d6f726503ed17ec02471d2c740fa6f892a0660686557b1c8f7c644339a92e562340c1341cea4266a595e221091871b4953aec", "ed9955416d3ca83df3d8755b2411dcb0267c341af72b4465ce34c079d8423fd72d9e4549d74c616aa7e6b93a524cede938465c755de2d198b8f61aadbc021be539c2eb72afcc442", "f58126dc0e1c5dfb61a83bfbc90bc40f1ea02b363ebb175f6232223f12aff824beee229588f946625fb3b250230d115b914a639d5c683ab1700001507d0da972316793de2ccde5a", "f300b470bece91a22f406731de6bbab1bd753e335d3ecfe398f60575a50facde684d2301d945b51fb7ff50b69ebce33b93b1e943ecef69501b0468250e764a3d26b049e1f1d43a6", "1bd5150ee5af6c448c849490daa4c3059b53dff463871597d1e236bbe29f4097532ece2d2749cbbe48a8e185c64efa2c578b7affea55ea302dbe75edb9dc81dde11a7e2829acad00", "67121b12654ceb0cd66d99b36ea8ba707a2be84df3ffa8bcec8d12955d97f39d593915508acaf252bba8b7b57272e685fc6c96a2c9256aee48e61809903ce40761e9ad8d11ce563"], fq), f12));
    assert!(a.frobenius_map(3, f12).same(&fq12(&["17311739c8e800e1dd0498646c745fcf6dd904ce5acd137f4ace9d58b134ea8b580fdaecf23c4ed7a91ed180dfd5f8b93183d8a914e6faccf4f382aa62d58942164cc6428eed3892", "f1c0d18f881028ecfa2ccb8ee14372f510e0dd0a2590fd43246a94eeca91ec5c354f44bf931ef5ad1a7d883a8dd6a185896d6030300233424e9e8bcf3840497b952c9d04e82dad", "a4e4166256c1214a147e931bb6ee535f1d4c6bf06572807322cd332f77d49ca31a7c23c5a92670d4cc0c085c41393fd96e1aa79760cd5c0ccdbeca0ee506b437d8d8a69a79d0c4c", "1b16c8a694cb5d11a39894481a36a8a7f4e1f4fbaa0f933af7ab5379fa12c1de894112ce73459d49330bd81d050dd0c56e102563e3eef4a5a549557ddd8eb2297ede86b9d2a3ee6c", "f12764f12dcba31e88f484d8b5e687e17be721444b04a4e463551e108489088d25eb152278f47206efde21f5ad99b9f376688a219354f9c903bcba6967acb431e0c8bd4dc2d30a2", "43908b62d61e043d383134dd204d2b57381e51b4ab7d6ccf1c4038c97a8f9d37b1d12482a0e55d8b3e2fc5a8e4c5de31f0bbb2c84c8d8c8e243f37befc45b70fe9e21b96e53da63", "20bc58bb0a53c9a25b415a3708e9f9ceb0cf58eb20b42e63e582a0ab0582ba3f0b2d100e2cad43b07fa9309680142dbf5fc8c0fb93182a1eace9bcd4c50c0433a885ce5829f40137", "20fe75c7935a95d283ba5679c8454dfd8d9cea29bbc706ad9cb5019e0c888d4c436c14fb03114091fdf8b96888dfe97adc6aba75997aea95a8fed72156e92cff81e747851ff72a37", "3d27e91ba01e39b4b448e0c98352aa1594c46e8912c927802dceac5f0987a1a56118fc091f19507016867e55fdba6ead659b1009c8d5354906622dd294d5e670d723f5b91747712", "175c7efc5c62814ac8da8e0f65e5dbf30eee1189e8df26c96db7f9c908de2391ea2ac87593f1bded2b4c38a1897e076f841d16bcc4524e00de61d77d0394e7ee80466452c9c88109", "e455d39544a6fa3b1dc7423ffa18174577efc98c010416a4cbd1a42e51579af6664e0a7327a4dcd58c67f9604c3fe5e65a04eadb7e2541775e65e3cacd615d8cef209efd557cbfe", "5b1530c6a774699e799493a394dbabd7a0072af7816c529b378ddbfe25fb8755dd2de2b54febe6bec735ec0c95f8e235653d791e6cb15116279662e4026b11b12d58e1c7f56f7bd"], fq), f12));
    // the conjugate is the Frobenius map of power six
    assert!(a.conjugate(f12).same(&a.frobenius_map(6, f12), f12));
    assert!(a.cyclotomic_exp(&vec![5], f12).same(&a.square(f12).square(f12).mul(&a, f12), f12));
    assert!(a.cyclotomic_exp(&vec![0], f12).same(&Fq12::one(f12), f12));
}

#[test]
fn frobenius_map_of_the_target_field_of_yafa_146_has_order_twelve() {
    let yafa = Yafa146::new();
    let f12 = &yafa.engine.fq12;
    let fq = &f12.base.base.base;
    let a = fq12(&["17311739c8e800e1dd0498646c745fcf6dd904ce5acd137f4ace9d58b134ea8b580fdaecf23c4ed7a91ed180dfd5f8b93183d8a914e6faccf4f382aa62d58942164cc6428eed3892", "230e3fcc3a6827dbffa40a0a4e648eb4bc7104fe05ef0cfe2a357058b513899ea8d0f7e4f4bb2211788da5c00b435ccf8f0c4717523ba90a9d1c26e012fd110e8c8054b5f28bc33c", "19b1bf37a48425f04b564da421d6ecf1bfad1f1c09bd75f43b2d07baac60d1c0d35e84ed59bbd9f9d8e762c281bd9f737db409fe0c5ed57d128ed8caf3e4e6148a87f6e94fd6e49d", "1b16c8a694cb5d11a39894481a36a8a7f4e1f4fbaa0f933af7ab5379fa12c1de894112ce73459d49330bd81d050dd0c56e102563e3eef4a5a549557ddd8eb2297ede86b9d2a3ee6c", "f12764f12dcba31e88f484d8b5e687e17be721444b04a4e463551e108489088d25eb152278f47206efde21f5ad99b9f376688a219354f9c903bcba6967acb431e0c8bd4dc2d30a2", "1fc6f7e79c8e57c1191b23880b40ff723e0000bfc55cc72e7b95d7610c3521b789e934e18a3feb2e71c526edb784d58df589f94afda2d274fd26d1eff270f5e709775f9989201686", "1f537e70a0b4425bc54ce3f8cc7270b3f0c047e4f7fbff57bf9d4d6da0d2e497053589f9a68659889ea2bd8b3a22a663230c7b06a9d8d8bf918469f9a109a3179b0f171d2f1cef21", "182101182513590d8003638b519325822d510b47cc3bceff477c3ccf4419cccaffdd6470980f26b3d19f47305d382c5e87a3f97cd556e6c26309c4681f646ca2ebe9a68dcf1c1b12", "1c0b6357c85ffe87d486214b50ae14c70f9b670b650e8462cd1588eedbe0c6edfe4d5896833ebc33cbd6e6154c5b9cefe5ae6d3f02ee69c81eb3897263a193984e31718c1b544888", "2271ab0b175399a93613b122eb482223cde260f5c7f9dc12f90a776dd10a1d799d9775721d269e2cd12d1384ab009bcb6d6d51b2241ea4a1461099d23f6f3be8aa23d371abe99adb", "105847fcc80f777f38af9b6a9903b6b0ab4edfb9af3230e460fca3bb2978d023e7568691afc17bad1e93b8778b2634d85377a484a89e816831a83d71782dc5fc775ad6897ee27afb", "1c7cc7f92a915dc91dbe249a2c56662c3fe0fb48469a3583ed9bb96e848bb027922d4d991ad3fa0b91e211ef0ac942accdbfd3461417eca345997649c1ed441d56f9daf52c6a202"], fq);
    check_frobenius(&a, 12, &fq.limbs, f12);
}

#[test]
fn cubic_extension_of_yafa_108_obeys_the_field_laws() {
    let yafa = Yafa108::new();
    let f3 = &yafa.engine.fq6.base;
    let fq = &f3.base;
    let (a, b, c) = (fq3(&["20507c3387a1f24b762120aadc600972b86c3f09e99928ef7f26c12e8cb3d53ba20bf9864d37eaea486243f744437e6773dc4f314f96d2a78b527cb480a2672adef5f3ca3c1b9239", "74b7f74e5ff25739c319b25aacf389f98ac1fb525b1cdaa6084b9c68fa9a3ed28727a30821c3ae50f82dc9be9ea696c3d0cf44f706820237c6e07494707be79802634601af979de", "1427ed6663719e2953c7cb36c81837a0e22db419ce6332546cd95bd92db34b66f16a69a042ef31817af8211a904361699a75a64c598b6a1c88544e1f1b22a145620b7c964326706f"], fq), fq3(&["1d2a7a6e032310037c0632ff4f8d9a4ac42732a779bec67578866843da90b6125a64f347f01e26b3e67f5ab4b02aac2bc5ac3355009f6d1643c3914c43b52ff954adc0289931f8e0", "5d340be9e1fa1f0141b89a1953b530303a89acb95e91259e9af60f84f18e931f2063933a7c30509c3e0890f807d009b99de95438ede3bb2d9b1090b865430d384047b11e50fce6b", "128d0ae0775ee5857dc365f650ca3837953e707ffc0e1c54bdb2800bec68a4aef6e5c7b6d5a78ccb3a21f07ca83d3ceb457b015a659c55918e41372185aca3556fe175cc6f5e7de8"], fq), fq3(&["17323a3f26ce32cfd7bb5fe3ea7a9ab0ef359049322339c0a61544f94af4a831a4305a071b9853dc87186add0775d8928ae67f52bba840eac0abfaad4e554c094e743a1533e06f81", "23e9bc0a42ab159ec20e973807ca60bf123109cc9ff633024c3d3993f7175314378b9fa7b6396bce74e9440414517b9363ec07f1accc207ea8bab034d1e9137919ee0c8adc7cf99d", "1b321d04ecf38a589cc35f425a8eb123785ea6e23cc133d9f011c13c47a39b06b74a1056c425414647477d8873ac04aa804f2d9b82652ceab2d1adcec770bbd1e6a4a07738c9b0ef"], fq));
    check_field_laws(&a, &b, &c, f3);
    check_round_trip(&a, f3);
    check_frobenius(&a, 3, &fq.limbs, f3);
    assert!(a.mul(&b, f3).same(&fq3(&["102be6a9899803d0c714eeb9df307f423089866457e681a358ec8952ab4b80215dfa2234aadbca957c6029eec03c38187fed2560bcde1c4ae41e29d3bac0a32a133738bdb33848ff", "1c343983cb892089c47bf27c84921940497687b71563dec044daaa17b5758d9c6d767d770a82b7d93efe872a370d87f6afccb81e16eb852152a860b7c6da56588ea1f4093bb298b5", "9c5372fbd5e79ab8e5266d1d7f5de159c475c287cf32c012e0b5dfbc598f8f63e8c9e9cc12caff5d2c5a2a68580479221bb71eb105757fec36bdb99baef18b5e5f07b5344682f05"], fq), f3));
    assert!(a.inverse(f3).unwrap().same(&fq3(&["8332a05961f1df92925fbf1aaba5e8d7b8d61574510b63b6f1e8abacda7c75f6c739e9b1a24653d4ce2ec0f0756aa0a39f1adf876e0b37076c1dde558c9a144ca69559c32e17087", "77d7de85126e34e8dc73916a72ad845eb32fde629429f71549c27ae9b86eb23488be3eed15b20de3bed30eb242ff0f55b9c3c72f6768eefaf869da16adabc73d7ba6ea20339e2a3", "8cd419102d550859daa3181760a9c9422fb12af49fe92139f009b006d57807fe587be47561bd2536217ddb21c4f39c1997d0fc8a103b25c81eb64937407ae2188dd774e7016fbb1"], fq), f3));
    assert!(a.scale(&fp("2", fq), f3).same(&a.double(f3), f3));
    // u^3 = 11
    let u = fq3(&["0", "1", "0"], fq);
    assert!(u.square(f3).mul(&u, f3).same(&fq3(&["b", "0", "0"], fq), f3));
}

#[test]
fn target_field_of_yafa_108_obeys_the_field_laws() {
    let yafa = Yafa108::new();
    let f6 = &yafa.engine.fq6;
    let fq = &f6.base.base;
    let (a, b, c) = (fq6a(&["e9e9ee5f4b3a195549c658608976bf1659b61bfd23fe9de059f1ad302470d5833076ea5e543430ecb53c7ae67d97f5c16fa2a220d706066035ffd983f5d137fd06da584bc5d712e", "184b7f8a7cfda99a8e42e3fac99bdae65b1718c53fedeb19ba3eebfcb3182dcc06a672f92f7ac9288e3bf0838e3a17608f99cdd4f052c7c0ceeb984a708c381b3ffee086a4c10151", "d35a11be7ccc298e712e2161c1c299cd580cefc6cf55ca1c8d106073a63cdebbcbe37a44b8500e2e3b4a886c12714b3af7be396973f4ba5437da527235b976ec7e64158367d88a4", "ca92c25d93324616ccc4ee662cce08d5e1f7336181eb64c80648ddbd22e325bc3bd0467fbf0424b6d3af7bed8b93687eacdaaf50b29fe9604062990a855f1267b1276596fb934f8", "17864bd97c62d2d6d4e8c8fb93d65bc223acfb82f631d0633cc453ec1fd2ca1b44c92b93526586bb2bb4ff59fba2427b7a6cc102afe3341ce5769d528f0b1cabdc00a184435eb2f9", "c6d661d3feb769157ba1bf8fb3b8ac6f9e028f4ea2f1843ef63c4ec48e6bb1d8b3ed166b83180770d78e46f87f22a4ee6520ac56bdd092010a0696e0af0af71b6408255b42c529"], fq), fq6a(&["1e5c8f44352ecafbbe1e34a2e6e030cee5e70e1b4f9f774ddf548b11eda92c249c64d0bb079961e13d13dbe34a2181a527a0ff00d67bd8cf0dffe23e5b6958b727abd82eed25d497", "10159cc4750b9c939335357d3b50e31b9a9a0a4bb3e611109580e0b5bc836ac80f98dadb8936028bbe5d80982d5e7d82323140831f4a62b27e93a19795cba617858ec8f979dff343", "198a0be7b5ea56189e9f44d1abdfd92b1efd972908d1033f824151de0f6c2d14b0b4827c38ea76fa0c9227d8787acafb67627c249d63006ed1b81c55b8998ef9d158952b10da232e", "1d77987f07156c14f15199730da313af7ce364fe3528826d85e88991a13e5748b40e68ada767f4eb90b6ea4ace402cda986b31bdf0c5336e37119bdce3e976d2e88fb91a9a26e9fd", "1254fdc39420c24c40902ecad092b5a2088060f6e74f5757b69d49369675da85b1058059bb0359aa124824304d7613e66be0093cec905cf347c3be65711fecf421624a32d847468e", "163046ff982cd9e4670ffebaa3e1197d36b876d2c1997d63f0592d8e19c81e4dcc4b44806c9ae1a03d204b99fd04af7157c8433b9f6dad92132312ac1b34806d0c74f8a89c271d97"], fq), fq6a(&["11c01745c3e31f35b714dcbf9f666f28c639c98cfddd0ef700852a023e1919e0f489d9216585fd4a8e190a66d7699848aafcd5a144f1c067fd717e7f01dc8598f855aca38c6dc370", "a1d2b3600cd7e4ad615aee7a2844d076113cd9a63ba367b19a81ae72a53413050d03e4f6384aaad5cf2434689881b2ce6e529d7261d2381bc1849b130653db3324fd3c5eb469222", "107225ed13e4c29648bbafd3456d760cb91e5e282e73e717628920c1ab08b945030e57b209d3d0329ea63ca7c77ef55672db75811ec0f42e99d96fc150e6f62f7060ebcd4ef875cf", "dd420722327a642c840ef60c1cce6022be8279685b42f5257df5976f2ecbd551abfaa25cfb8f74c401c7bc84a53dc0f9c6b9f3212eb6a190fe7ce0b38e43be200658c6f0ccb98b6", "217a7bbb6f13be0401ff820ade6a91004bd62a4c779a134113b90e6a56500e9d96a6430812db1ccb189208e7300aa2202a73e732568b0a9cc9822eac7dd04154b34e2c8eda444648", "d381229fc1d4b78752c591669e039f0d703555273f37faca20c84bb458eabab927f2a48151fe2a30229b81a69bb4fcc57e82eb91683c94607b1708ee8af0749bce5cf07477aadac"], fq));
    check_field_laws(&a, &b, &c, f6);
    check_round_trip(&a, f6);
    check_frobenius(&a, 6, &fq.limbs, f6);
    assert!(a.mul(&b, f6).same(&fq6a(&["1298f4c50f0096be571a649da261a85b4e51f1b7b262f8c2a88723d518d49f3d09018cc78f2eac02f81c1365665877716bdba75f768396eaa78716f2108e6a941584164cf4edbf2f", "200379c790c7ddd4b712c51fc373d4d93962257494f7d772870c0dd14e77f580ab07fc18eb1d2bdab861e4fcac8399812f4b4ccb7a174a0d23afecf410104cceb8070ab821824814", "35ff0b0b445d5f89835ef5f7db776f397698d5c9ea11de763af083461c256f12983a7f0f08e8675c6d6004a2f9be1e75d5b37a441c4004ee1c1cde5918260ca688834a955f281ec", "1e10747a5488cf2236e169e632d6aefff240845bf00f206c5bd0afa53e3255e78ade36a65154338bfdd1e5d530d4e2e6b97f781abda5353124631113f615c993043e496fc9ce4319", "1c7d6ad55371d74fbee83f65bd4bc4165cca04ddfa85242d66cc2f4fab727ab1d36ca0a2c2924b124e08c8c00ce1f6db74c511ae30c608bbc780118fbb2683db5dbb8ce68ee30da6", "22a94d324204e261c6ce105ccd36d80b04304f56e30cee4ab88790e946d6489d9ca1527ed09a7847c6267825bba6aa7c8863fd14fd63abb3b695de1ffffc3d0cb0d1c783d202a73c"], fq), f6));
    assert!(a.inverse(f6).unwrap().same(&fq6a(&["e282162ae9730462ff7445f16fbcf08972cefb0f04692ca54c7dc0073045e20afbbc73ccadd38acccc6d029ef90e75e149ae093317bb1f6f4334a4bc770847bc02fa4af5693ac55", "1f9cbed15d67f1e452f6c1587d2a60756d01b87ef701f3c19d410a5f28772737f6e9073cfc98ddd214f61741f9147ceb72970350f3a487b15f765bd1718df3751bce88010d9e1d16", "8d457304d469b9cfcb03bcd00d2847eaeaad9e9f5237fae40c3dd184e8461df3123f1763128de8f03c6438f9026a8bb0974f0ae7f1f1c1a88c5cd970f78e244188e965e6e25b149", "18ce0ca64f8830c6e3e8a773570390f2f81f6ca3d1236edfd882e1b64fde56cd1b99e92ef668723b4cba87c9c09f3def6d8f97c58c9a4fc73637bf0c88e780170dcc1407853991e0", "160e3a0ef3e1977262ed163116cd364d1106cc7e71d4cf653d3bf6ce2968ff716480116183f34ec21f5e814ed6cd79a9ea55bb34933c20026d411a3bede2d2f5de5307d867f9c3b0", "14ba0dfed97ec0b40c7eb13d96a22c2d5bc3a96cbbca6fe8a2011168993f72b98e57d61cec46881c8c1f384665031016a8452bc02117d2b68a00d69a2f26e03d9fe0251513f5e56a"], fq), f6));
    assert!(a.conjugate(f6).same(&a.frobenius_map(3, f6), f6));
}

#[test]
fn tower_elements_are_encoded_coefficient_by_coefficient() {
    let yafa = Yafa146::new();
    let f2 = &yafa.engine.fq12.base.base;
    let fq = &f2.base;
    let a = fq2(&["0102", "03"], fq);
    let mut bytes = Vec::new();
    a.write(&mut bytes, f2);
    let mut expected = vec![0u8; 144];
    expected[0] = 2;
    expected[1] = 1;
    expected[72] = 3;
    assert_eq!(bytes, expected);
    // a coefficient that is no residue
    let mut bad = vec![0u8; 144];
    for b in bad.iter_mut().skip(72) {
        *b = 0xff;
    }
    assert!(matches!(Fq2::read(&bad, f2), Err(Error::DeserializationRangeError)));
}
