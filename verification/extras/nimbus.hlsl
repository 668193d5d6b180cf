cbuffer Nimbus : register(b0) {
    float uResX;
    float uResY;
    float uInput;
    float uOutput;
    float uP_speed;
    float uP_camDist;
    float uP_focal;
    float uP_radius;
    float uP_scale;
    float uP_churn;
    float uP_threshold;
    float uP_edgeSoft;
    float uP_density;
    float uP_absorb;
    float uP_shadowAbsorb;
    float uP_shadowLift;
    float uP_aniso;
    float uP_lightSpin;
    float uP_power;
    float uP_ambient;
    float uP_exposure;
    float uP_alphaGain;
    float _pad0;
    float _pad1;
    float4 uC_light;
    float4 uC_shadow;
};

#define STEPS 56
#define LIGHT_STEPS 4
#define DENSITY_OCT 4

float3 tanh3(float3 x) {
    x = clamp(x, -10.0, 10.0);
    float3 e = exp(2.0 * x);
    return (e - 1.0) / (e + 1.0);
}

float phaseHG(float c, float g) {
    float g2 = g * g;
    return (1.0 - g2) / pow(max(1.0 + g2 - 2.0 * g * c, 0.0001), 1.5);
}

float density(float3 p, float animTime, float nimbusDensity) {
    float shell = 1.0 - length(p) / uP_radius;
    if (shell <= 0.0) return 0.0;

    float3 q = p * uP_scale;
    float f = 1.0;
    [unroll]
    for (int k = 0; k < DENSITY_OCT; k++) {
        q += cos(q.yzx * f + animTime * uP_churn) / f;
        f *= 1.8;
    }

    float n = (sin(q.x) + sin(q.y) + sin(q.z)) / 3.0 * 0.5 + 0.5;
    float clump = smoothstep(uP_threshold, 1.0, n);
    return clump * pow(shell, uP_edgeSoft) * nimbusDensity;
}

float4 nimbusRender(float2 fragCoord, float animTime, float nimbusPower, float nimbusDensity) {
    float2 uRes = float2(uResX, uResY);
    fragCoord.y = uRes.y - fragCoord.y;
    float2 uv = (2.0 * fragCoord - uRes) / min(uRes.x, uRes.y);
    float3 ro = float3(0.0, 0.0, -uP_camDist);
    float3 rd = normalize(float3(uv, uP_focal));

    float3 L = normalize(float3(
        cos(animTime * uP_lightSpin) * 0.7,
        0.45,
        sin(animTime * uP_lightSpin) * 0.35 + 0.65
    ));
    float phase = phaseHG(dot(rd, L), uP_aniso);

    float tStart = max(uP_camDist - uP_radius, 0.0);
    float dt = (2.0 * uP_radius) / float(STEPS);

    float T = 1.0;
    float3 scattered = float3(0.0, 0.0, 0.0);

    [loop]
    for (int i = 0; i < STEPS; i++) {
        float t = tStart + (float(i) + 0.5) * dt;
        float3 p = ro + rd * t;
        float dn = density(p, animTime, nimbusDensity);
        if (dn > 0.001) {
            float shadow = 1.0;
            float lstep = uP_radius / float(LIGHT_STEPS);
            [loop]
            for (int s = 1; s <= LIGHT_STEPS; s++) {
                float3 lp = p + L * (float(s) - 0.5) * lstep;
                shadow *= exp(-density(lp, animTime, nimbusDensity) * lstep * uP_shadowAbsorb);
            }
            float3 lit = lerp(uC_shadow.rgb * uP_shadowLift, uC_light.rgb, shadow);
            scattered += T * dn * dt * lit * phase * nimbusPower;
            T *= exp(-dn * dt * uP_absorb);
            if (T < 0.01) break;
        }
    }

    float body = 1.0 - T;
    scattered += uC_shadow.rgb * body * uP_ambient;
    return float4(scattered, body);
}

struct VsOut { float4 pos : SV_Position; };

VsOut vs_main(uint id : SV_VertexID) {
    float2 uv = float2((id << 1) & 2, id & 2);
    VsOut o;
    o.pos = float4(uv * float2(2.0, -2.0) + float2(-1.0, 1.0), 0.0, 1.0);
    return o;
}

float4 ps_main(float4 pos : SV_Position) : SV_Target {
    float nimbusPower = uP_power * (0.7 + 0.9 * uOutput);
    float nimbusDensity = uP_density * (1.0 + 0.35 * uInput);
    float4 acc = nimbusRender(pos.xy, uP_speed, nimbusPower, nimbusDensity);
    float3 col = tanh3(acc.rgb * uP_exposure);
    float a = saturate(acc.a * uP_alphaGain);
    return float4(col, a);
}
